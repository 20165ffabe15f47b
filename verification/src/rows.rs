//! The rows of the overlay and the widths of its columns.

use vstd::prelude::*;
use vstd::string::*;
use crate::labels::{action_sequence_label, action_sequence_label_spec};
use crate::model::Action;
use crate::order::{
    lemma_sort_rows_is_stable_sort, rows_view, rows_with_key, sort_overlay_rows, sort_rows,
    sorted_by_key, RowText, SortKey,
};
use crate::text::{chars_of, push_char_range};

verus! {

/// Columns added to a key's text for the spaces around it.
pub const KEY_TEXT_PADDING: usize = 2;

/// Columns between the key column and the descriptions.
pub const CELL_GAP: usize = 2;

/// `a + b`, or `usize::MAX` when that is larger.
pub open spec fn sat_add(a: int, b: int) -> int {
    if a + b > usize::MAX {
        usize::MAX as int
    } else {
        a + b
    }
}

/// `a - b`, or 0 when that is negative.
pub open spec fn sat_sub(a: int, b: int) -> int {
    if a - b < 0 {
        0
    } else {
        a - b
    }
}

/// The rows of a keymap: each binding whose actions have a hint, with its
/// key's text and that hint, in the keymap's order.
pub open spec fn labeled_rows(keymap: Seq<(String, Vec<Action>)>) -> Seq<RowText>
    decreases keymap.len(),
{
    if keymap.len() == 0 {
        Seq::empty()
    } else {
        let prev = labeled_rows(keymap.drop_last());
        let binding = keymap.last();
        match action_sequence_label_spec(binding.1@) {
            Some(l) => prev.push((binding.0@, l)),
            None => prev,
        }
    }
}

/// The rows shown while Zellij has not granted the plugin's permissions.
pub open spec fn permission_rows() -> Seq<RowText> {
    seq![("!"@, "waiting for Zellij permissions"@), ("↵"@, "approve prompt or cache permissions"@)]
}

/// The rows of the overlay: the permission help before the permissions are
/// granted, afterwards the keymap's labeled rows sorted by key.
pub open spec fn overlay_rows_spec(keymap: Seq<(String, Vec<Action>)>, permissions_granted: bool) -> Seq<RowText> {
    if !permissions_granted {
        permission_rows()
    } else {
        sort_rows(labeled_rows(keymap))
    }
}

/// The rows of the overlay: the permission help before the permissions are
/// granted; afterwards one row per binding whose actions have a hint, with
/// the key's text and the hint, sorted by the key's sort key and stable.
pub fn overlay_rows(keymap: &[(String, Vec<Action>)], permissions_granted: bool) -> (rows: Vec<
    (String, String),
>)
    ensures
        rows_view(rows@) == overlay_rows_spec(keymap@, permissions_granted),
        permissions_granted ==> sorted_by_key(rows_view(rows@)),
        permissions_granted ==> forall|k: SortKey| #[trigger]
            rows_with_key(rows_view(rows@), k) == rows_with_key(labeled_rows(keymap@), k),
{
    if !permissions_granted {
        let mut help: Vec<(String, String)> = Vec::new();
        help.push((String::from_str("!"), String::from_str("waiting for Zellij permissions")));
        help.push((String::from_str("↵"), String::from_str("approve prompt or cache permissions")));
        assert(rows_view(help@) =~= permission_rows());
        return help;
    }
    let n = keymap.len();
    let mut rows: Vec<(String, String)> = Vec::new();
    for i in 0..n
        invariant
            n == keymap@.len(),
            rows_view(rows@) == labeled_rows(keymap@.take(i as int)),
    {
        assert(keymap@.take(i + 1).drop_last() =~= keymap@.take(i as int));
        assert(keymap@.take(i + 1).last() == keymap@[i as int]);
        let binding = &keymap[i];
        match action_sequence_label(binding.1.as_slice()) {
            Some(label) => {
                let key = binding.0.clone();
                rows.push((key, label));
                assert(rows_view(rows@) =~= labeled_rows(keymap@.take(i as int)).push(
                    (binding.0@, label@),
                ));
            },
            None => {},
        }
    }
    assert(keymap@.take(n as int) =~= keymap@);
    sort_overlay_rows(&mut rows);
    proof {
        lemma_sort_rows_is_stable_sort(labeled_rows(keymap@));
    }
    rows
}

/// The width of a row's key column: its key's length with the padding.
pub open spec fn key_width(r: RowText) -> int {
    sat_add(r.0.len() as int, KEY_TEXT_PADDING as int)
}

/// The widest key of the rows with its padding; the padding alone for no rows.
pub open spec fn key_column_width_spec(rows: Seq<RowText>) -> int
    decreases rows.len(),
{
    if rows.len() == 0 {
        KEY_TEXT_PADDING as int
    } else if rows.len() == 1 {
        key_width(rows[0])
    } else {
        let prev = key_column_width_spec(rows.drop_last());
        let w = key_width(rows.last());
        if prev >= w {
            prev
        } else {
            w
        }
    }
}

/// The key column is at least the padding wide and holds every row's key
/// with its padding.
pub proof fn lemma_key_column_holds_keys(rows: Seq<RowText>)
    ensures
        key_column_width_spec(rows) >= KEY_TEXT_PADDING,
        forall|i: int| 0 <= i < rows.len() ==> #[trigger] key_width(rows[i]) <= key_column_width_spec(rows),
    decreases rows.len(),
{
    if rows.len() > 1 {
        let d = rows.drop_last();
        lemma_key_column_holds_keys(d);
        assert forall|i: int| 0 <= i < rows.len() implies #[trigger] key_width(rows[i]) <= key_column_width_spec(rows) by {
            if i < d.len() {
                assert(key_width(d[i]) <= key_column_width_spec(d));
            }
        }
    }
}

/// The longest description of the rows; 0 for no rows.
pub open spec fn description_width_spec(rows: Seq<RowText>) -> int
    decreases rows.len(),
{
    if rows.len() == 0 {
        0
    } else {
        let prev = description_width_spec(rows.drop_last());
        let w = rows.last().1.len() as int;
        if prev >= w {
            prev
        } else {
            w
        }
    }
}

proof fn lemma_description_width_is_longest(rows: Seq<RowText>)
    ensures
        forall|i: int| 0 <= i < rows.len() ==> #[trigger] rows[i].1.len() <= description_width_spec(rows),
        rows.len() == 0 ==> description_width_spec(rows) == 0,
        rows.len() > 0 ==> exists|i: int|
            0 <= i < rows.len() && description_width_spec(rows) == #[trigger] rows[i].1.len(),
    decreases rows.len(),
{
    if rows.len() > 0 {
        let d = rows.drop_last();
        lemma_description_width_is_longest(d);
        assert forall|i: int| 0 <= i < rows.len() implies #[trigger] rows[i].1.len() <= description_width_spec(rows) by {
            if i < d.len() {
                assert(d[i].1.len() <= description_width_spec(d));
            }
        }
        if description_width_spec(rows) == rows.last().1.len() {
            assert(rows[rows.len() - 1].1.len() == description_width_spec(rows));
        } else {
            let i = choose|i: int| 0 <= i < d.len() && description_width_spec(d) == #[trigger] d[i].1.len();
            assert(rows[i].1.len() == description_width_spec(rows));
        }
    }
}

/// The key column is exactly as wide as the widest key with its padding:
/// it holds every row's key and equals some row's key width (the padding
/// alone for no rows).
pub proof fn lemma_key_column_is_widest_key(rows: Seq<RowText>)
    ensures
        forall|i: int| 0 <= i < rows.len() ==> #[trigger] key_width(rows[i]) <= key_column_width_spec(rows),
        rows.len() == 0 ==> key_column_width_spec(rows) == KEY_TEXT_PADDING,
        rows.len() > 0 ==> exists|i: int|
            0 <= i < rows.len() && key_column_width_spec(rows) == #[trigger] key_width(rows[i]),
    decreases rows.len(),
{
    lemma_key_column_holds_keys(rows);
    if rows.len() == 1 {
        assert(key_column_width_spec(rows) == key_width(rows[0]));
    } else if rows.len() > 1 {
        let d = rows.drop_last();
        lemma_key_column_is_widest_key(d);
        if key_column_width_spec(rows) == key_width(rows.last()) {
            assert(key_column_width_spec(rows) == key_width(rows[rows.len() - 1]));
        } else {
            let i = choose|i: int| 0 <= i < d.len() && key_column_width_spec(d) == #[trigger] key_width(d[i]);
            assert(key_column_width_spec(rows) == key_width(rows[i]));
        }
    }
}

/// The content is wide enough for every row: the key column, the gap and
/// the row's description fit in it; and no wider than needed: it is that
/// sum for some row (the key padding and the gap alone for no rows).
pub proof fn lemma_content_width_fits_rows(rows: Seq<RowText>)
    ensures
        forall|i: int|
            0 <= i < rows.len() ==> sat_add(
                sat_add(key_column_width_spec(rows), CELL_GAP as int),
                #[trigger] rows[i].1.len() as int,
            ) <= overlay_content_width_spec(rows),
        rows.len() == 0 ==> overlay_content_width_spec(rows) == KEY_TEXT_PADDING + CELL_GAP,
        rows.len() > 0 ==> exists|i: int|
            0 <= i < rows.len() && overlay_content_width_spec(rows) == sat_add(
                sat_add(key_column_width_spec(rows), CELL_GAP as int),
                #[trigger] rows[i].1.len() as int,
            ),
{
    lemma_description_width_is_longest(rows);
    if rows.len() > 0 {
        let i = choose|i: int| 0 <= i < rows.len() && description_width_spec(rows) == #[trigger] rows[i].1.len();
        assert(overlay_content_width_spec(rows) == sat_add(
            sat_add(key_column_width_spec(rows), CELL_GAP as int),
            rows[i].1.len() as int,
        ));
    }
}

/// The width of the key column: the widest key with its padding.
pub fn key_column_width(rows: &[(String, String)]) -> (w: usize)
    ensures
        w == key_column_width_spec(rows_view(rows@)),
{
    let ghost v = rows_view(rows@);
    let n = rows.len();
    let mut w: usize = KEY_TEXT_PADDING;
    for i in 0..n
        invariant
            n == rows@.len(),
            v == rows_view(rows@),
            i == 0 ==> w == KEY_TEXT_PADDING,
            i > 0 ==> w == key_column_width_spec(v.take(i as int)),
    {
        assert(v.take(i + 1).drop_last() =~= v.take(i as int));
        assert(v.take(i + 1).last() == v[i as int]);
        let k = rows[i].0.as_str().unicode_len().saturating_add(KEY_TEXT_PADDING);
        if i == 0 || k > w {
            w = k;
        }
    }
    assert(v.take(n as int) =~= v);
    w
}

/// The width of the overlay's content: key column, gap and longest
/// description.
pub open spec fn overlay_content_width_spec(rows: Seq<RowText>) -> int {
    sat_add(
        sat_add(key_column_width_spec(rows), CELL_GAP as int),
        description_width_spec(rows),
    )
}

/// The width of the overlay's content: key column, gap and longest
/// description.
pub fn overlay_content_width(rows: &[(String, String)]) -> (w: usize)
    ensures
        w == overlay_content_width_spec(rows_view(rows@)),
{
    let key_width = key_column_width(rows);
    let ghost v = rows_view(rows@);
    let n = rows.len();
    let mut d: usize = 0;
    for i in 0..n
        invariant
            n == rows@.len(),
            v == rows_view(rows@),
            d == description_width_spec(v.take(i as int)),
    {
        assert(v.take(i + 1).drop_last() =~= v.take(i as int));
        assert(v.take(i + 1).last() == v[i as int]);
        let k = rows[i].1.as_str().unicode_len();
        if k > d {
            d = k;
        }
    }
    assert(v.take(n as int) =~= v);
    key_width.saturating_add(CELL_GAP).saturating_add(d)
}

/// The first `cols` characters of `text` (all of them when it is shorter).
pub open spec fn fit_plain_spec(text: Seq<char>, cols: int) -> Seq<char> {
    if cols >= text.len() {
        text
    } else {
        text.take(cols)
    }
}

/// The first `cols` characters of `text` (all of them when it is shorter).
pub fn fit_plain(text: &str, cols: usize) -> (r: String)
    ensures
        r@ == fit_plain_spec(text@, cols as int),
{
    if cols == 0 {
        return String::new();
    }
    let v = chars_of(text);
    let take = if cols < v.len() {
        cols
    } else {
        v.len()
    };
    let mut out = String::new();
    push_char_range(&mut out, v.as_slice(), 0, take);
    assert(v@.subrange(0, take as int) =~= fit_plain_spec(text@, cols as int));
    out
}

} // verus!
