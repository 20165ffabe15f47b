//! The size of the floating pane and where it stands.

use vstd::prelude::*;
use crate::rows::{sat_add, sat_sub};

verus! {

/// The narrowest the overlay's content is made.
pub const MIN_MENU_WIDTH: usize = 24;

/// Columns kept free right of the overlay.
pub const MENU_MARGIN_RIGHT: usize = 2;

/// Columns the frame of a floating pane takes.
pub const FLOATING_FRAME_COLUMNS: usize = 2;

/// Rows the frame of a floating pane takes.
pub const FLOATING_FRAME_ROWS: usize = 2;

/// The height of the overlay's content: one line per row.
pub open spec fn overlay_content_height_spec(row_count: int) -> int {
    row_count
}

/// The height of the overlay's content: one line per row.
pub fn overlay_content_height(row_count: usize) -> (h: usize)
    ensures
        h == overlay_content_height_spec(row_count as int),
{
    row_count
}

/// The size of the floating pane (frame included) for content of the given
/// size in a tab of the given size: the content is made at least
/// `MIN_MENU_WIDTH` wide and one row high, at most what the tab leaves after
/// the margin and the frame; `None` when the tab leaves no room.
pub open spec fn floating_pane_dimensions_spec(
    active_cols: int,
    active_rows: int,
    content_width: int,
    content_height: int,
) -> Option<(int, int)> {
    let available_width = sat_sub(active_cols, MENU_MARGIN_RIGHT as int);
    let available_content_width = sat_sub(available_width, FLOATING_FRAME_COLUMNS as int);
    let available_content_height = sat_sub(active_rows, FLOATING_FRAME_ROWS as int);
    if available_width == 0 || available_content_width == 0 || available_content_height == 0 {
        None
    } else {
        let w0 = if content_width >= MIN_MENU_WIDTH { content_width } else { MIN_MENU_WIDTH as int };
        let w = if w0 <= available_content_width { w0 } else { available_content_width };
        let h0 = if content_height >= 1 { content_height } else { 1 };
        let h = if h0 <= available_content_height { h0 } else { available_content_height };
        Some((sat_add(w, FLOATING_FRAME_COLUMNS as int), sat_add(h, FLOATING_FRAME_ROWS as int)))
    }
}

/// The size of the floating pane (frame included) for content of the given
/// size in a tab of the given size; `None` when the tab leaves no room.
/// Content that fits is framed as it is, and the pane always fits left of
/// the margin.
pub fn floating_pane_dimensions(
    active_cols: usize,
    active_rows: usize,
    content_width: usize,
    content_height: usize,
) -> (dims: Option<(usize, usize)>)
    ensures
        match dims {
            Some((w, h)) => floating_pane_dimensions_spec(
                active_cols as int,
                active_rows as int,
                content_width as int,
                content_height as int,
            ) == Some((w as int, h as int)),
            None => floating_pane_dimensions_spec(
                active_cols as int,
                active_rows as int,
                content_width as int,
                content_height as int,
            ) is None,
        },
        dims matches Some((w, h)) ==> w + MENU_MARGIN_RIGHT <= active_cols && h <= active_rows,
        MIN_MENU_WIDTH <= content_width && content_width + MENU_MARGIN_RIGHT
            + FLOATING_FRAME_COLUMNS <= active_cols && 1 <= content_height && content_height
            + FLOATING_FRAME_ROWS <= active_rows ==> dims == Some(
            (
                (content_width + FLOATING_FRAME_COLUMNS) as usize,
                (content_height + FLOATING_FRAME_ROWS) as usize,
            ),
        ),
{
    let available_width = active_cols.saturating_sub(MENU_MARGIN_RIGHT);
    let available_content_width = available_width.saturating_sub(FLOATING_FRAME_COLUMNS);
    let available_content_height = active_rows.saturating_sub(FLOATING_FRAME_ROWS);
    if available_width == 0 || available_content_width == 0 || available_content_height == 0 {
        return None;
    }
    let w0 = if content_width >= MIN_MENU_WIDTH { content_width } else { MIN_MENU_WIDTH };
    let w = if w0 <= available_content_width { w0 } else { available_content_width };
    let h0 = if content_height >= 1 { content_height } else { 1 };
    let h = if h0 <= available_content_height { h0 } else { available_content_height };
    let pane_width = w.saturating_add(FLOATING_FRAME_COLUMNS);
    let pane_height = h.saturating_add(FLOATING_FRAME_ROWS);
    Some((pane_width, pane_height))
}

/// The row at which a pane of the given height touches the bottom.
pub open spec fn bottom_aligned_y_spec(active_rows: int, pane_height: int) -> int {
    sat_sub(active_rows, pane_height)
}

/// The row at which a pane of the given height touches the bottom.
pub fn bottom_aligned_y(active_rows: usize, pane_height: usize) -> (y: usize)
    ensures
        y == bottom_aligned_y_spec(active_rows as int, pane_height as int),
{
    active_rows.saturating_sub(pane_height)
}

} // verus!
