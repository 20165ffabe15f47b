//! The text of the overlay: key buttons, hint lines, frame and the whole
//! screen.

use vstd::prelude::*;
use vstd::string::*;
use crate::layout::{FLOATING_FRAME_COLUMNS, FLOATING_FRAME_ROWS};
use crate::model::Action;
use crate::order::{rows_view, RowText};
use crate::rows::{
    fit_plain, fit_plain_spec, key_column_width, key_column_width_spec, overlay_rows,
    overlay_rows_spec, sat_add, sat_sub, CELL_GAP,
};
use crate::text::{push_char, push_repeated, repeated};

verus! {

/// What clears the screen and puts the cursor in its top left corner.
pub open spec fn clear_screen() -> Seq<char> {
    "\x1b[2J\x1b[H"@
}

/// What starts the reversed colors of a key.
pub open spec fn ansi_key() -> Seq<char> {
    "\x1b[7m"@
}

/// What ends the reversed colors of a key.
pub open spec fn ansi_reset() -> Seq<char> {
    "\x1b[0m"@
}

/// A key's text with a space on each side.
pub open spec fn key_button_spec(key: Seq<char>) -> Seq<char> {
    " "@ + key + " "@
}

/// A key's text with a space on each side.
pub fn key_button(key: &str) -> (button: String)
    ensures
        button@ == key_button_spec(key@),
{
    String::from_str(" ").concat(key).concat(" ")
}

/// What a hint line shows without its color codes: the key button padded to
/// the key column, the gap, the description cut to what is left of `cols`,
/// and spaces up to `cols`.
pub open spec fn hint_line_visible(key: Seq<char>, description: Seq<char>, key_column_width: int, cols: int) -> Seq<char> {
    let button = key_button_spec(key);
    let key_padding = sat_sub(key_column_width, button.len() as int);
    let description_width = sat_sub(cols, sat_add(key_column_width, CELL_GAP as int));
    let d = fit_plain_spec(description, description_width);
    let visible_width = sat_add(sat_add(key_column_width, CELL_GAP as int), d.len() as int);
    let line_padding = sat_sub(cols, visible_width);
    button + repeated(' ', key_padding as nat) + repeated(' ', CELL_GAP as nat) + d + repeated(
        ' ',
        line_padding as nat,
    )
}

/// A hint line: the key button in reversed colors padded to the key column,
/// the gap, the description cut to what is left of `cols`, and spaces up to
/// `cols`.
pub open spec fn hint_line_spec(key: Seq<char>, description: Seq<char>, key_column_width: int, cols: int) -> Seq<char> {
    let button = key_button_spec(key);
    let key_padding = sat_sub(key_column_width, button.len() as int);
    let description_width = sat_sub(cols, sat_add(key_column_width, CELL_GAP as int));
    let d = fit_plain_spec(description, description_width);
    let visible_width = sat_add(sat_add(key_column_width, CELL_GAP as int), d.len() as int);
    let line_padding = sat_sub(cols, visible_width);
    ansi_key() + button + ansi_reset() + repeated(' ', key_padding as nat) + repeated(
        ' ',
        CELL_GAP as nat,
    ) + d + repeated(' ', line_padding as nat)
}

/// A hint line: the key button in reversed colors padded to the key column,
/// the gap, the description cut to what is left of `cols`, and spaces up to
/// `cols`.
pub fn render_hint_line(key: &str, description: &str, key_column_width: usize, cols: usize) -> (line: String)
    ensures
        line@ == hint_line_spec(key@, description@, key_column_width as int, cols as int),
{
    let button = key_button(key);
    let button_width = button.as_str().unicode_len();
    let key_padding = key_column_width.saturating_sub(button_width);
    let description_width = cols.saturating_sub(key_column_width.saturating_add(CELL_GAP));
    let description = fit_plain(description, description_width);
    let visible_width = key_column_width.saturating_add(CELL_GAP).saturating_add(
        description.as_str().unicode_len(),
    );
    let line_padding = cols.saturating_sub(visible_width);
    let mut out = String::from_str("\x1b[7m");
    out.append(button.as_str());
    out.append("\x1b[0m");
    push_repeated(&mut out, ' ', key_padding);
    push_repeated(&mut out, ' ', CELL_GAP);
    out.append(description.as_str());
    push_repeated(&mut out, ' ', line_padding);
    out
}

/// A hint line shown in a row of `cols` columns fills the row exactly, when
/// the key column holds the key button and leaves room for the gap.
pub proof fn lemma_hint_line_fills_row(key: Seq<char>, description: Seq<char>, key_column_width: int, cols: int)
    requires
        key.len() + 2 <= key_column_width,
        key_column_width + CELL_GAP <= cols <= usize::MAX,
    ensures
        hint_line_visible(key, description, key_column_width, cols).len() == cols,
        hint_line_spec(key, description, key_column_width, cols) == ansi_key() + key_button_spec(key)
            + ansi_reset() + hint_line_visible(key, description, key_column_width, cols).skip(
            key_button_spec(key).len() as int,
        ),
{
    reveal_strlit(" ");
    let button = key_button_spec(key);
    let v = hint_line_visible(key, description, key_column_width, cols);
    let rest = v.skip(button.len() as int);
    let key_padding = sat_sub(key_column_width, button.len() as int);
    let description_width = sat_sub(cols, sat_add(key_column_width, CELL_GAP as int));
    let d = fit_plain_spec(description, description_width);
    let visible_width = sat_add(sat_add(key_column_width, CELL_GAP as int), d.len() as int);
    let line_padding = sat_sub(cols, visible_width);
    assert(rest =~= repeated(' ', key_padding as nat) + repeated(' ', CELL_GAP as nat) + d + repeated(
        ' ',
        line_padding as nat,
    ));
    assert(hint_line_spec(key, description, key_column_width, cols) =~= ansi_key() + button
        + ansi_reset() + rest);
}

/// The top of the overlay's frame, `cols` wide.
pub open spec fn border_top_spec(cols: int) -> Seq<char> {
    "┌"@ + repeated('─', sat_sub(cols, FLOATING_FRAME_COLUMNS as int) as nat) + "┐"@
}

/// The bottom of the overlay's frame, `cols` wide.
pub open spec fn border_bottom_spec(cols: int) -> Seq<char> {
    "└"@ + repeated('─', sat_sub(cols, FLOATING_FRAME_COLUMNS as int) as nat) + "┘"@
}

/// The top of the overlay's frame, `cols` wide.
pub fn border_top(cols: usize) -> (border: String)
    ensures
        border@ == border_top_spec(cols as int),
{
    let mut s = String::from_str("┌");
    push_repeated(&mut s, '─', cols.saturating_sub(FLOATING_FRAME_COLUMNS));
    s.append("┐");
    s
}

/// The bottom of the overlay's frame, `cols` wide.
pub fn border_bottom(cols: usize) -> (border: String)
    ensures
        border@ == border_bottom_spec(cols as int),
{
    let mut s = String::from_str("└");
    push_repeated(&mut s, '─', cols.saturating_sub(FLOATING_FRAME_COLUMNS));
    s.append("┘");
    s
}

/// The lines of the given rows, each on a new line between the frame's
/// sides.
pub open spec fn overlay_body(rows: Seq<RowText>, key_column_width: int, cols: int) -> Seq<char>
    decreases rows.len(),
{
    if rows.len() == 0 {
        Seq::empty()
    } else {
        let r = rows.last();
        overlay_body(rows.drop_last(), key_column_width, cols).push('\n').push('│') + hint_line_spec(
            r.0,
            r.1,
            key_column_width,
            cols,
        ).push('│')
    }
}

/// The overlay drawn in a pane of `rows` by `cols`: a cleared screen when
/// the frame does not fit; otherwise the cleared screen, the top of the
/// frame, as many rows as fit inside the frame, and the bottom of the frame.
pub open spec fn render_overlay_spec(
    keymap: Seq<(String, Vec<Action>)>,
    permissions_granted: bool,
    rows: int,
    cols: int,
) -> Seq<char> {
    if rows < FLOATING_FRAME_ROWS || cols < FLOATING_FRAME_COLUMNS {
        clear_screen()
    } else {
        let shown = overlay_rows_spec(keymap, permissions_granted);
        let key_column_width = key_column_width_spec(shown);
        let capacity = rows - FLOATING_FRAME_ROWS;
        let visible = if shown.len() <= capacity { shown } else { shown.take(capacity) };
        clear_screen() + border_top_spec(cols) + overlay_body(
            visible,
            key_column_width,
            cols - FLOATING_FRAME_COLUMNS,
        ) + seq!['\n'] + border_bottom_spec(cols)
    }
}

/// The overlay draws the sorted rows in their order, from the top: with
/// room for no row it draws the cleared screen, the top and the bottom of the
/// frame; each further line of room adds, just above the bottom of the
/// frame, the hint line of the next row of `overlay_rows`, until every row
/// is drawn.
pub proof fn lemma_overlay_draws_rows_in_order(
    keymap: Seq<(String, Vec<Action>)>,
    permissions_granted: bool,
    rows: int,
    cols: int,
)
    requires
        FLOATING_FRAME_ROWS <= rows,
        FLOATING_FRAME_COLUMNS <= cols,
    ensures
        ({
            let shown = overlay_rows_spec(keymap, permissions_granted);
            let key_column_width = key_column_width_spec(shown);
            let tail = seq!['\n'] + border_bottom_spec(cols);
            let a = render_overlay_spec(keymap, permissions_granted, rows, cols);
            let b = render_overlay_spec(keymap, permissions_granted, rows + 1, cols);
            let head = a.take(a.len() - tail.len());
            &&& rows == FLOATING_FRAME_ROWS ==> a == clear_screen() + border_top_spec(cols) + tail
            &&& a.len() >= tail.len()
            &&& a == head + tail
            &&& rows - FLOATING_FRAME_ROWS < shown.len() ==> b == head + seq!['\n', '│'] + hint_line_spec(
                shown[rows - FLOATING_FRAME_ROWS].0,
                shown[rows - FLOATING_FRAME_ROWS].1,
                key_column_width,
                cols - FLOATING_FRAME_COLUMNS,
            ) + seq!['│'] + tail
            &&& rows - FLOATING_FRAME_ROWS >= shown.len() ==> b == a
        }),
{
    let shown = overlay_rows_spec(keymap, permissions_granted);
    let kcw = key_column_width_spec(shown);
    let tail = seq!['\n'] + border_bottom_spec(cols);
    let a = render_overlay_spec(keymap, permissions_granted, rows, cols);
    let b = render_overlay_spec(keymap, permissions_granted, rows + 1, cols);
    let k = rows - FLOATING_FRAME_ROWS;
    let inner = cols - FLOATING_FRAME_COLUMNS;
    let top = clear_screen() + border_top_spec(cols);
    let vis_a = if shown.len() <= k { shown } else { shown.take(k) };
    let body_a = overlay_body(vis_a, kcw, inner);
    assert(a == top + body_a + tail);
    assert(a =~= (top + body_a) + tail);
    assert(a.take(a.len() - tail.len()) =~= top + body_a);
    if k == 0 {
        if shown.len() > 0 {
            assert(vis_a =~= Seq::<RowText>::empty());
        }
        assert(body_a =~= Seq::<char>::empty());
        assert(a =~= clear_screen() + border_top_spec(cols) + tail);
    }
    if k < shown.len() {
        let vis_b = shown.take(k + 1);
        assert(vis_b =~= if shown.len() <= k + 1 { shown } else { shown.take(k + 1) });
        assert(vis_b.drop_last() =~= vis_a);
        assert(vis_b.last() == shown[k]);
        let line = hint_line_spec(shown[k].0, shown[k].1, kcw, inner);
        assert(overlay_body(vis_b, kcw, inner) == body_a.push('\n').push('│') + line.push('│'));
        assert(b =~= (top + body_a) + seq!['\n', '│'] + line + seq!['│'] + tail);
    } else {
        assert(b == a);
    }
}

/// The overlay drawn in a pane of `rows` by `cols`: a cleared screen when
/// the frame does not fit; otherwise the cleared screen, the top of the
/// frame, as many rows as fit inside the frame, and the bottom of the frame.
pub fn render_overlay(
    keymap: &[(String, Vec<Action>)],
    permissions_granted: bool,
    rows: usize,
    cols: usize,
) -> (screen: String)
    ensures
        screen@ == render_overlay_spec(keymap@, permissions_granted, rows as int, cols as int),
{
    if rows < FLOATING_FRAME_ROWS || cols < FLOATING_FRAME_COLUMNS {
        return String::from_str("\x1b[2J\x1b[H");
    }
    let rows_to_render = overlay_rows(keymap, permissions_granted);
    let key_column_width = key_column_width(rows_to_render.as_slice());
    let inner_rows = rows.saturating_sub(FLOATING_FRAME_ROWS);
    let inner_cols = cols.saturating_sub(FLOATING_FRAME_COLUMNS);
    let row_capacity = inner_rows;
    let ghost shown = rows_view(rows_to_render@);
    let count = if rows_to_render.len() <= row_capacity {
        rows_to_render.len()
    } else {
        row_capacity
    };
    let mut output = String::from_str("\x1b[2J\x1b[H");
    output.append(border_top(cols).as_str());
    let ghost head = output@;
    for i in 0..count
        invariant
            count <= rows_to_render@.len(),
            shown == rows_view(rows_to_render@),
            output@ == head + overlay_body(shown.take(i as int), key_column_width as int, inner_cols as int),
    {
        assert(shown.take(i + 1).drop_last() =~= shown.take(i as int));
        assert(shown.take(i + 1).last() == shown[i as int]);
        let line = render_hint_line(
            rows_to_render[i].0.as_str(),
            rows_to_render[i].1.as_str(),
            key_column_width,
            inner_cols,
        );
        push_char(&mut output, '\n');
        push_char(&mut output, '│');
        output.append(line.as_str());
        push_char(&mut output, '│');
        assert(output@ =~= head + overlay_body(shown.take(i + 1), key_column_width as int, inner_cols as int));
    }
    assert(shown.take(count as int) =~= if shown.len() <= row_capacity { shown } else { shown.take(row_capacity as int) });
    push_char(&mut output, '\n');
    output.append(border_bottom(cols).as_str());
    output
}

} // verus!
