//! The order of the overlay's rows: the sort key of a key's text, the order
//! on sort keys, and a stable sort of rows by that key.

use vstd::prelude::*;
use crate::text::{chars_of, push_chars};

verus! {

/// A row of the overlay as text: the key and the description.
pub type RowText = (Seq<char>, Seq<char>);

/// Whether `c` has the Unicode `White_Space` property, as `char::is_whitespace`.
pub open spec fn is_white_space(c: char) -> bool {
    let u = c as u32;
    ||| 0x09 <= u <= 0x0D
    ||| u == 0x20
    ||| u == 0x85
    ||| u == 0xA0
    ||| u == 0x1680
    ||| 0x2000 <= u <= 0x200A
    ||| u == 0x2028
    ||| u == 0x2029
    ||| u == 0x202F
    ||| u == 0x205F
    ||| u == 0x3000
}

fn white_space(c: char) -> (r: bool)
    ensures
        r == is_white_space(c),
{
    let u = c as u32;
    (0x09 <= u && u <= 0x0D) || u == 0x20 || u == 0x85 || u == 0xA0 || u == 0x1680 || (0x2000 <= u
        && u <= 0x200A) || u == 0x2028 || u == 0x2029 || u == 0x202F || u == 0x205F || u == 0x3000
}

/// `s` without its leading white space.
pub open spec fn trim_start(s: Seq<char>) -> Seq<char>
    decreases s.len(),
{
    if s.len() > 0 && is_white_space(s[0]) {
        trim_start(s.drop_first())
    } else {
        s
    }
}

/// `s` without its trailing white space.
pub open spec fn trim_end(s: Seq<char>) -> Seq<char>
    decreases s.len(),
{
    if s.len() > 0 && is_white_space(s.last()) {
        trim_end(s.drop_last())
    } else {
        s
    }
}

/// `s` without leading and trailing white space, as `str::trim`.
pub open spec fn trim(s: Seq<char>) -> Seq<char> {
    trim_end(trim_start(s))
}

/// The ASCII lower case of `c`; other characters are kept.
pub open spec fn ascii_lower(c: char) -> char {
    let u = c as u32;
    if 65 <= u <= 90 {
        (u + 32) as char
    } else {
        c
    }
}

fn to_ascii_lower(c: char) -> (r: char)
    ensures
        r == ascii_lower(c),
{
    let u = c as u32;
    if 65 <= u && u <= 90 {
        let b = (u as u8) + 32;
        b as char
    } else {
        c
    }
}

/// Whether `c` is one of '0' to '9'.
pub open spec fn is_ascii_digit(c: char) -> bool {
    48 <= c as u32 <= 57
}

/// Whether `c` is an ASCII letter.
pub open spec fn is_ascii_alphabetic(c: char) -> bool {
    (65 <= c as u32 <= 90) || (97 <= c as u32 <= 122)
}

/// A key's text as it is compared: trimmed and in ASCII lower case.
pub open spec fn normalized(key: Seq<char>) -> Seq<char> {
    trim(key).map_values(|c: char| ascii_lower(c))
}

/// The group of a normalized key: 0 for a digit first, 1 for a letter first,
/// 2 otherwise.
pub open spec fn key_category(n: Seq<char>) -> u8 {
    if n.len() > 0 && is_ascii_digit(n[0]) {
        0
    } else if n.len() > 0 && is_ascii_alphabetic(n[0]) {
        1
    } else {
        2
    }
}

/// The value of the normalized key's first character as a decimal digit, or
/// 255 when it is none.
pub open spec fn key_digit(n: Seq<char>) -> u8 {
    if n.len() > 0 && is_ascii_digit(n[0]) {
        (n[0] as u32 - 48) as u8
    } else {
        255
    }
}

/// A sort key: the group, the digit, the normalized text.
pub type SortKey = (u8, u8, Seq<char>);

/// The sort key of a key's text.
pub open spec fn key_sort_spec(key: Seq<char>) -> SortKey {
    let n = normalized(key);
    (key_category(n), key_digit(n), n)
}

/// Lexicographic order on texts by the characters' code points, which is
/// the byte order of their UTF-8 encodings that `String` compares by.
pub open spec fn text_le(a: Seq<char>, b: Seq<char>) -> bool
    decreases a.len(),
{
    if a.len() == 0 {
        true
    } else if b.len() == 0 {
        false
    } else if a[0] != b[0] {
        (a[0] as u32) < (b[0] as u32)
    } else {
        text_le(a.drop_first(), b.drop_first())
    }
}

/// The order on sort keys: by group, then digit, then text.
pub open spec fn key_le(a: SortKey, b: SortKey) -> bool {
    ||| a.0 < b.0
    ||| a.0 == b.0 && a.1 < b.1
    ||| a.0 == b.0 && a.1 == b.1 && text_le(a.2, b.2)
}

/// The sort key of a row: that of its key text.
pub open spec fn row_key(r: RowText) -> SortKey {
    key_sort_spec(r.0)
}

/// The characters of a key's normalized text with its group and digit.
pub fn sort_key(key: &str) -> (k: (u8, u8, Vec<char>))
    ensures
        (k.0, k.1, k.2@) == key_sort_spec(key@),
{
    let v = chars_of(key);
    let ghost s = v@;
    let len = v.len();
    let mut start: usize = 0;
    assert(s.skip(0) =~= s);
    while start < len && white_space(v[start])
        invariant
            start <= len == s.len(),
            v@ == s,
            trim_start(s) == trim_start(s.skip(start as int)),
        decreases len - start,
    {
        assert(s.skip(start as int).drop_first() =~= s.skip(start + 1));
        start = start + 1;
    }
    assert(trim_start(s) == s.subrange(start as int, len as int)) by {
        assert(s.skip(start as int) =~= s.subrange(start as int, len as int));
    }
    let mut end: usize = len;
    while end > start && white_space(v[end - 1])
        invariant
            start <= end <= len == s.len(),
            v@ == s,
            trim(s) == trim_end(s.subrange(start as int, end as int)),
        decreases end,
    {
        assert(s.subrange(start as int, end as int).drop_last() =~= s.subrange(start as int, end - 1));
        end = end - 1;
    }
    let ghost t = s.subrange(start as int, end as int);
    assert(trim(s) == t);
    let mut n: Vec<char> = Vec::new();
    let mut i = start;
    while i < end
        invariant
            start <= i <= end <= len == s.len(),
            v@ == s,
            n@ == s.subrange(start as int, i as int).map_values(|c: char| ascii_lower(c)),
        decreases end - i,
    {
        let c = to_ascii_lower(v[i]);
        n.push(c);
        assert(s.subrange(start as int, i + 1).map_values(|c: char| ascii_lower(c)) =~= s.subrange(
            start as int,
            i as int,
        ).map_values(|c: char| ascii_lower(c)).push(c));
        i = i + 1;
    }
    assert(n@ == normalized(key@));
    if n.len() > 0 && 48 <= n[0] as u32 && n[0] as u32 <= 57 {
        let d = (n[0] as u32 - 48) as u8;
        (0, d, n)
    } else if n.len() > 0 && ((65 <= n[0] as u32 && n[0] as u32 <= 90) || (97 <= n[0] as u32
        && n[0] as u32 <= 122)) {
        (1, 255, n)
    } else {
        (2, 255, n)
    }
}

/// The sort key of a key's text: its group (0 for a digit first, 1 for a
/// letter first, 2 otherwise), the first digit's value or 255, and the text
/// trimmed and in ASCII lower case.
pub fn key_sort_value(key: &str) -> (k: (u8, u8, String))
    ensures
        (k.0, k.1, k.2@) == key_sort_spec(key@),
{
    let (c, d, n) = sort_key(key);
    let mut s = String::new();
    push_chars(&mut s, n.as_slice());
    (c, d, s)
}

fn text_le_exec(a: &Vec<char>, b: &Vec<char>) -> (r: bool)
    ensures
        r == text_le(a@, b@),
{
    let mut i: usize = 0;
    assert(a@.skip(0) =~= a@);
    assert(b@.skip(0) =~= b@);
    while i < a.len() && i < b.len()
        invariant
            i <= a@.len(),
            i <= b@.len(),
            text_le(a@, b@) == text_le(a@.skip(i as int), b@.skip(i as int)),
        decreases a@.len() - i,
    {
        let ca = a[i];
        let cb = b[i];
        assert(a@.skip(i as int)[0] == ca);
        assert(b@.skip(i as int)[0] == cb);
        if ca != cb {
            return (ca as u32) < (cb as u32);
        }
        assert(a@.skip(i as int).drop_first() =~= a@.skip(i + 1));
        assert(b@.skip(i as int).drop_first() =~= b@.skip(i + 1));
        i = i + 1;
    }
    i == a.len()
}

fn key_le_exec(a: &(u8, u8, Vec<char>), b: &(u8, u8, Vec<char>)) -> (r: bool)
    ensures
        r == key_le((a.0, a.1, a.2@), (b.0, b.1, b.2@)),
{
    a.0 < b.0 || (a.0 == b.0 && a.1 < b.1) || (a.0 == b.0 && a.1 == b.1 && text_le_exec(&a.2, &b.2))
}

/// `s`, sorted, with `x` placed after every row from the end that does not
/// come after it.
pub open spec fn insert_row(s: Seq<RowText>, x: RowText) -> Seq<RowText>
    decreases s.len(),
{
    if s.len() == 0 || key_le(row_key(s.last()), row_key(x)) {
        s.push(x)
    } else {
        insert_row(s.drop_last(), x).push(s.last())
    }
}

/// The rows sorted by their sort keys, rows of equal keys in their given
/// order (a stable sort).
pub open spec fn sort_rows(s: Seq<RowText>) -> Seq<RowText>
    decreases s.len(),
{
    if s.len() == 0 {
        s
    } else {
        insert_row(sort_rows(s.drop_last()), s.last())
    }
}

/// The text of rows held as strings.
pub open spec fn rows_view(rows: Seq<(String, String)>) -> Seq<RowText> {
    rows.map_values(|r: (String, String)| (r.0@, r.1@))
}

/// Sorts the rows by the sort keys of their key texts, keeping rows of equal
/// keys in their order.
pub fn sort_overlay_rows(rows: &mut Vec<(String, String)>)
    ensures
        rows_view(final(rows)@) == sort_rows(rows_view(old(rows)@)),
        sorted_by_key(rows_view(final(rows)@)),
        forall|k: SortKey| #[trigger]
            rows_with_key(rows_view(final(rows)@), k) == rows_with_key(rows_view(old(rows)@), k),
{
    let n = rows.len();
    let ghost input = rows_view(rows@);
    let mut out: Vec<(String, String)> = Vec::new();
    for i in 0..n
        invariant
            n == rows@.len(),
            input == rows_view(rows@),
            rows_view(out@) == sort_rows(input.take(i as int)),
    {
        assert(input.take(i + 1).drop_last() =~= input.take(i as int));
        let x = (rows[i].0.clone(), rows[i].1.clone());
        let ghost xv = (x.0@, x.1@);
        assert(xv == input[i as int]);
        let kx = sort_key(x.0.as_str());
        let ghost sorted = rows_view(out@);
        let mut j = out.len();
        assert(sorted.take(j as int) =~= sorted);
        assert(insert_row(sorted, xv) + sorted.skip(j as int) =~= insert_row(sorted, xv));
        while j > 0 && !key_le_exec(&sort_key(out[j - 1].0.as_str()), &kx)
            invariant
                j <= out@.len(),
                sorted == rows_view(out@),
                (kx.0, kx.1, kx.2@) == row_key(xv),
                insert_row(sorted, xv) == insert_row(sorted.take(j as int), xv) + sorted.skip(
                    j as int,
                ),
            decreases j,
        {
            let ghost t = sorted.take(j as int);
            assert(t.drop_last() =~= sorted.take(j - 1));
            assert(t.last() == sorted[j - 1]);
            assert(sorted.skip(j - 1) =~= seq![sorted[j - 1]] + sorted.skip(j as int));
            j = j - 1;
        }
        assert(insert_row(sorted.take(j as int), xv) == sorted.take(j as int).push(xv)) by {
            if j > 0 {
                assert(sorted.take(j as int).last() == sorted[j - 1]);
            }
        }
        out.insert(j, x);
        assert(rows_view(out@) =~= sorted.take(j as int).push(xv) + sorted.skip(j as int));
    }
    assert(input.take(n as int) =~= input);
    proof {
        lemma_sort_rows_is_stable_sort(input);
    }
    *rows = out;
}

/// The rows of `s` whose sort key is `k`, in their order.
pub open spec fn rows_with_key(s: Seq<RowText>, k: SortKey) -> Seq<RowText>
    decreases s.len(),
{
    if s.len() == 0 {
        s
    } else {
        let prev = rows_with_key(s.drop_last(), k);
        if row_key(s.last()) == k {
            prev.push(s.last())
        } else {
            prev
        }
    }
}

/// Whether every row's sort key comes no later than those of the rows after it.
pub open spec fn sorted_by_key(s: Seq<RowText>) -> bool {
    forall|i: int, j: int| 0 <= i < j < s.len() ==> key_le(#[trigger] row_key(s[i]), #[trigger] row_key(s[j]))
}

proof fn lemma_text_le_reflexive(a: Seq<char>)
    ensures
        text_le(a, a),
    decreases a.len(),
{
    if a.len() > 0 {
        lemma_text_le_reflexive(a.drop_first());
    }
}

proof fn lemma_distinct_codes(a: char, b: char)
    requires
        a != b,
    ensures
        a as u32 != b as u32,
{
    assert(a as u32 == a as int);
}

proof fn lemma_text_le_total(a: Seq<char>, b: Seq<char>)
    ensures
        text_le(a, b) || text_le(b, a),
    decreases a.len(),
{
    if a.len() > 0 && b.len() > 0 {
        if a[0] == b[0] {
            lemma_text_le_total(a.drop_first(), b.drop_first());
        } else {
            lemma_distinct_codes(a[0], b[0]);
        }
    }
}

proof fn lemma_text_le_transitive(a: Seq<char>, b: Seq<char>, c: Seq<char>)
    requires
        text_le(a, b),
        text_le(b, c),
    ensures
        text_le(a, c),
    decreases a.len(),
{
    if a.len() > 0 && b.len() > 0 && c.len() > 0 && a[0] == b[0] && b[0] == c[0] {
        lemma_text_le_transitive(a.drop_first(), b.drop_first(), c.drop_first());
    }
}

proof fn lemma_text_le_antisymmetric(a: Seq<char>, b: Seq<char>)
    requires
        text_le(a, b),
        text_le(b, a),
    ensures
        a == b,
    decreases a.len(),
{
    if a.len() > 0 && b.len() > 0 {
        lemma_text_le_antisymmetric(a.drop_first(), b.drop_first());
        assert(a =~= seq![a[0]] + a.drop_first());
        assert(b =~= seq![b[0]] + b.drop_first());
    }
}

/// The order on sort keys is a total order.
pub proof fn lemma_key_le_total_order(a: SortKey, b: SortKey, c: SortKey)
    ensures
        key_le(a, a),
        key_le(a, b) || key_le(b, a),
        key_le(a, b) && key_le(b, c) ==> key_le(a, c),
        key_le(a, b) && key_le(b, a) ==> a == b,
{
    lemma_text_le_reflexive(a.2);
    lemma_text_le_total(a.2, b.2);
    if key_le(a, b) && key_le(b, c) && a.0 == b.0 && b.0 == c.0 && a.1 == b.1 && b.1 == c.1 {
        lemma_text_le_transitive(a.2, b.2, c.2);
    }
    if key_le(a, b) && key_le(b, a) {
        lemma_text_le_antisymmetric(a.2, b.2);
    }
}

proof fn lemma_insert_row_with_key(s: Seq<RowText>, x: RowText, k: SortKey)
    ensures
        rows_with_key(insert_row(s, x), k) == if row_key(x) == k {
            rows_with_key(s, k).push(x)
        } else {
            rows_with_key(s, k)
        },
    decreases s.len(),
{
    if s.len() == 0 || key_le(row_key(s.last()), row_key(x)) {
        assert(s.push(x).drop_last() =~= s);
    } else {
        lemma_insert_row_with_key(s.drop_last(), x, k);
        let r = insert_row(s.drop_last(), x);
        assert(r.push(s.last()).drop_last() =~= r);
        lemma_key_le_total_order(row_key(x), row_key(x), row_key(x));
    }
}

proof fn lemma_insert_row_elements(s: Seq<RowText>, x: RowText)
    ensures
        insert_row(s, x).len() == s.len() + 1,
        forall|e: RowText| #[trigger] insert_row(s, x).contains(e) ==> s.contains(e) || e == x,
    decreases s.len(),
{
    if s.len() == 0 || key_le(row_key(s.last()), row_key(x)) {
        assert forall|e: RowText| #[trigger] s.push(x).contains(e) implies s.contains(e) || e == x by {
            let i = choose|i: int| 0 <= i < s.len() + 1 && s.push(x)[i] == e;
            if i < s.len() {
                assert(s[i] == e);
            }
        }
    } else {
        let d = s.drop_last();
        lemma_insert_row_elements(d, x);
        let r = insert_row(d, x);
        assert forall|e: RowText| #[trigger] r.push(s.last()).contains(e) implies s.contains(e) || e == x by {
            let i = choose|i: int| 0 <= i < r.len() + 1 && r.push(s.last())[i] == e;
            if i < r.len() {
                assert(r.contains(e));
                if d.contains(e) {
                    let k = choose|k: int| 0 <= k < d.len() && d[k] == e;
                    assert(s[k] == e);
                }
            } else {
                assert(s[s.len() - 1] == e);
            }
        }
    }
}

proof fn lemma_insert_row_sorted(s: Seq<RowText>, x: RowText)
    requires
        sorted_by_key(s),
    ensures
        sorted_by_key(insert_row(s, x)),
    decreases s.len(),
{
    if s.len() == 0 || key_le(row_key(s.last()), row_key(x)) {
        let r = s.push(x);
        assert forall|i: int, j: int| 0 <= i < j < r.len() implies key_le(
            #[trigger] row_key(r[i]),
            #[trigger] row_key(r[j]),
        ) by {
            if j == s.len() {
                if i < s.len() - 1 {
                    assert(key_le(row_key(s[i]), row_key(s[s.len() - 1])));
                    lemma_key_le_total_order(row_key(s[i]), row_key(s[s.len() - 1]), row_key(x));
                }
            } else {
                assert(key_le(row_key(s[i]), row_key(s[j])));
            }
        }
    } else {
        let d = s.drop_last();
        let last = s.last();
        assert(sorted_by_key(d)) by {
            assert forall|i: int, j: int| 0 <= i < j < d.len() implies key_le(
                #[trigger] row_key(d[i]),
                #[trigger] row_key(d[j]),
            ) by {
                assert(key_le(row_key(s[i]), row_key(s[j])));
            }
        }
        lemma_insert_row_sorted(d, x);
        lemma_insert_row_elements(d, x);
        lemma_key_le_total_order(row_key(last), row_key(x), row_key(last));
        let r0 = insert_row(d, x);
        let r = r0.push(last);
        assert forall|i: int, j: int| 0 <= i < j < r.len() implies key_le(
            #[trigger] row_key(r[i]),
            #[trigger] row_key(r[j]),
        ) by {
            if j == r0.len() {
                let e = r0[i];
                assert(r0.contains(e));
                if d.contains(e) {
                    let k = choose|k: int| 0 <= k < d.len() && d[k] == e;
                    assert(key_le(row_key(s[k]), row_key(s[s.len() - 1])));
                }
            } else {
                assert(key_le(row_key(r0[i]), row_key(r0[j])));
            }
        }
    }
}

proof fn lemma_sort_rows_with_key(s: Seq<RowText>, k: SortKey)
    ensures
        rows_with_key(sort_rows(s), k) == rows_with_key(s, k),
    decreases s.len(),
{
    if s.len() > 0 {
        lemma_sort_rows_with_key(s.drop_last(), k);
        lemma_insert_row_with_key(sort_rows(s.drop_last()), s.last(), k);
    }
}

/// Sorting the rows is stable: the result is sorted by the rows' sort keys,
/// as long as the input, and holds the rows of each sort key in the order in
/// which the input holds them (so it is a rearrangement of the input).
pub proof fn lemma_sort_rows_is_stable_sort(s: Seq<RowText>)
    ensures
        sorted_by_key(sort_rows(s)),
        sort_rows(s).len() == s.len(),
        forall|k: SortKey| #[trigger] rows_with_key(sort_rows(s), k) == rows_with_key(s, k),
    decreases s.len(),
{
    if s.len() > 0 {
        lemma_sort_rows_is_stable_sort(s.drop_last());
        lemma_insert_row_sorted(sort_rows(s.drop_last()), s.last());
        lemma_insert_row_elements(sort_rows(s.drop_last()), s.last());
    }
    assert forall|k: SortKey| #[trigger] rows_with_key(sort_rows(s), k) == rows_with_key(s, k) by {
        lemma_sort_rows_with_key(s, k);
    }
}

} // verus!
