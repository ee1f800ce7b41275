//! The shape of the detail that the store gives for a broken exclusion
//! rule, and the scan that splits it into its two keys.

use vstd::prelude::*;
use vstd::string::StringExecFns;
use crate::text::{
    chars_of, find, find_char, index_of, lemma_find, lemma_find_char, lemma_find_char_in_prefix,
    lemma_find_char_ends_at, lemma_find_ends_at, lemma_find_in_prefix, occurs_at, position,
};

verus! {

/// The words that open each of the two keys in the store's detail.
pub open spec fn key_marker() -> Seq<char> {
    "(resource_id, timespan)=("@
}

/// One key of the detail as text: the resource and the two ends of its
/// window, not yet read as instants.
#[derive(Debug, Clone)]
pub struct RawWindow {
    pub rid: String,
    pub start: String,
    pub end: String,
}

/// A key with its three texts as sequences of characters.
pub struct RawWindowView {
    pub rid: Seq<char>,
    pub start: Seq<char>,
    pub end: Seq<char>,
}

impl View for RawWindow {
    type V = RawWindowView;

    open spec fn view(&self) -> RawWindowView {
        RawWindowView { rid: self.rid@, start: self.start@, end: self.end@ }
    }
}

/// A text without the pair of double quotes around it, if it has one.
pub open spec fn unquoted(t: Seq<char>) -> Seq<char> {
    if t.len() >= 2 && t[0] == '"' && t[t.len() - 1] == '"' {
        t.subrange(1, t.len() - 1)
    } else {
        t
    }
}

/// The key whose value begins at `at`, and the place just behind it. The
/// value has the shape `<rid>, [<start>,<end>))`: the resource runs to the
/// first comma and is not empty, the start to the next comma, the end to the
/// first closing bracket, which another one follows.
pub open spec fn window_at(s: Seq<char>, at: int) -> Option<(RawWindowView, int)> {
    let c = find_char(s, ',', at);
    let d = find_char(s, ',', c + 3);
    let f = find_char(s, ')', d + 1);
    if at < c && c + 2 < s.len() && s[c + 1] == ' ' && s[c + 2] == '[' && d < s.len() && f + 1
        < s.len() && s[f + 1] == ')' {
        Some(
            (
                RawWindowView {
                    rid: s.subrange(at, c),
                    start: unquoted(s.subrange(c + 3, d)),
                    end: unquoted(s.subrange(d + 1, f)),
                },
                f + 2,
            ),
        )
    } else {
        None
    }
}

/// The two keys of a detail, the attempted one first, and the place just
/// behind the second: the text holds the marker exactly twice, and a
/// well-shaped value follows each.
pub open spec fn located(s: Seq<char>) -> Option<(RawWindowView, RawWindowView, int)> {
    let key = key_marker();
    match find(s, key, 0) {
        None => None,
        Some(first) => match window_at(s, first + key.len()) {
            None => None,
            Some((w1, n1)) => match find(s, key, n1) {
                None => None,
                Some(second) => match window_at(s, second + key.len()) {
                    None => None,
                    Some((w2, n2)) => if find(s, key, n2) is None {
                        Some((w1, w2, n2))
                    } else {
                        None
                    },
                },
            },
        },
    }
}

/// The two keys of a detail, the attempted one first; `None` where the text
/// does not hold exactly two well-shaped keys.
pub open spec fn scanned(s: Seq<char>) -> Option<(RawWindowView, RawWindowView)> {
    match located(s) {
        Some((w1, w2, _)) => Some((w1, w2)),
        None => None,
    }
}

/// The places of a span without the quotes around it.
fn unquote(chars: &Vec<char>, from: usize, to: usize) -> (r: (usize, usize))
    requires
        from <= to <= chars.len(),
    ensures
        r.0 <= r.1 <= chars.len(),
        chars@.subrange(r.0 as int, r.1 as int) == unquoted(chars@.subrange(from as int, to as int)),
{
    if to - from >= 2 && chars[from] == '"' && chars[to - 1] == '"' {
        assert(chars@.subrange(from + 1, to - 1) =~= chars@.subrange(
            from as int,
            to as int,
        ).subrange(1, to - from - 1));
        (from + 1, to - 1)
    } else {
        (from, to)
    }
}

/// Reads the key whose value begins at `at`.
fn read_window(text: &str, chars: &Vec<char>, at: usize) -> (r: Option<(RawWindow, usize)>)
    requires
        chars@ == text@,
        at <= chars.len(),
    ensures
        match r {
            Some((w, next)) => window_at(text@, at as int) == Some((w@, next as int)) && next
                <= chars.len(),
            None => window_at(text@, at as int) is None,
        },
{
    let len: usize = chars.len();
    let c: usize = index_of(chars, ',', at);
    if !(at < c && len - c > 2) {
        return None;
    }
    if chars[c + 1] != ' ' || chars[c + 2] != '[' {
        return None;
    }
    let d: usize = index_of(chars, ',', c + 3);
    if d >= len {
        return None;
    }
    let f: usize = index_of(chars, ')', d + 1);
    if !(len - f > 1) {
        return None;
    }
    if chars[f + 1] != ')' {
        return None;
    }
    let start = unquote(chars, c + 3, d);
    let end = unquote(chars, d + 1, f);
    let w = RawWindow {
        rid: String::from_str(text.substring_char(at, c)),
        start: String::from_str(text.substring_char(start.0, start.1)),
        end: String::from_str(text.substring_char(end.0, end.1)),
    };
    Some((w, f + 2))
}

/// The two keys of a rendered view, if there are two.
pub open spec fn raw_pair(r: Option<(RawWindow, RawWindow)>) -> Option<
    (RawWindowView, RawWindowView),
> {
    match r {
        Some((a, b)) => Some((a@, b@)),
        None => None,
    }
}

/// Splits a detail into its two keys, the attempted one first. `None` where
/// the text does not hold exactly two well-shaped keys.
pub fn scan(text: &str) -> (r: Option<(RawWindow, RawWindow)>)
    ensures
        raw_pair(r) == scanned(text@),
{
    let chars = chars_of(text);
    let key = chars_of("(resource_id, timespan)=(");
    let first: usize = match position(&chars, &key, 0) {
        Some(p) => p,
        None => { return None; },
    };
    let (w1, n1) = match read_window(text, &chars, first + key.len()) {
        Some(found) => found,
        None => { return None; },
    };
    let second: usize = match position(&chars, &key, n1) {
        Some(p) => p,
        None => { return None; },
    };
    let (w2, n2) = match read_window(text, &chars, second + key.len()) {
        Some(found) => found,
        None => { return None; },
    };
    match position(&chars, &key, n2) {
        Some(_) => None,
        None => Some((w1, w2)),
    }
}

/// A key that is read ends behind the place where it begins, and inside the
/// text.
pub proof fn lemma_window_ends_inside(s: Seq<char>, at: int)
    requires
        0 <= at,
    ensures
        window_at(s, at) matches Some((_, next)) ==> at < next <= s.len(),
{
    if window_at(s, at) is Some {
        let c = find_char(s, ',', at);
        let d = find_char(s, ',', c + 3);
        lemma_find_char(s, ',', at);
        lemma_find_char(s, ',', c + 3);
        lemma_find_char(s, ')', d + 1);
    }
}

/// A key that can be read from a text can be read from its first `k`
/// characters exactly when it ends among them.
pub proof fn lemma_window_in_prefix(s: Seq<char>, at: int, k: int)
    requires
        0 <= at,
        0 <= k <= s.len(),
        window_at(s, at) is Some,
    ensures
        match window_at(s, at) {
            Some((_, next)) => if next <= k {
                window_at(s.take(k), at) == window_at(s, at)
            } else {
                window_at(s.take(k), at) is None
            },
            None => true,
        },
{
    let t = s.take(k);
    let c = find_char(s, ',', at);
    let d = find_char(s, ',', c + 3);
    let f = find_char(s, ')', d + 1);
    assert(at < s.len());
    lemma_find_char(s, ',', at);
    lemma_find_char(s, ',', c + 3);
    lemma_find_char(s, ')', d + 1);
    lemma_find_char_in_prefix(s, ',', at, k);
    lemma_find_char_in_prefix(s, ',', c + 3, k);
    lemma_find_char_in_prefix(s, ')', d + 1, k);
    if f + 2 <= k {
        assert(t.subrange(at, c) =~= s.subrange(at, c));
        assert(t.subrange(c + 3, d) =~= s.subrange(c + 3, d));
        assert(t.subrange(d + 1, f) =~= s.subrange(d + 1, f));
    } else {
        let c2 = find_char(t, ',', at);
        if c2 == c && c + 2 < k {
            let d2 = find_char(t, ',', c + 3);
            if d2 == d && d < k {
                let f2 = find_char(t, ')', d + 1);
                assert(f2 + 1 >= k);
            }
        }
    }
}

/// Where a text holds two keys, none of its beginnings that stop before the
/// end of the second key holds two.
pub proof fn lemma_truncated_detail_is_not_scanned(s: Seq<char>, k: int)
    requires
        located(s) matches Some((_, _, end)) && 0 <= k < end,
    ensures
        scanned(s.take(k)) is None,
{
    let key = key_marker();
    lemma_find(s, key, 0);
    let first = find(s, key, 0)->0;
    let (_, n1) = window_at(s, first + key.len())->0;
    lemma_window_ends_inside(s, first + key.len());
    lemma_find(s, key, n1);
    let second = find(s, key, n1)->0;
    lemma_window_ends_inside(s, second + key.len());
    lemma_find_in_prefix(s, key, 0, k);
    if first + key.len() <= k {
        lemma_window_in_prefix(s, first + key.len(), k);
        if n1 <= k {
            lemma_find_in_prefix(s, key, n1, k);
            if second + key.len() <= k {
                lemma_window_in_prefix(s, second + key.len(), k);
            }
        }
    }
}

/// The value of a key as the store writes it: the resource, and in square
/// and round brackets the two ends of the window, each in double quotes.
pub open spec fn key_value(w: RawWindowView) -> Seq<char> {
    w.rid + ", [\""@ + w.start + "\",\""@ + w.end + "\"))"@
}

/// The detail that the store writes for two keys, the attempted one first.
pub open spec fn detail_of(new: RawWindowView, old: RawWindowView) -> Seq<char> {
    "Key "@ + key_marker() + key_value(new) + " conflicts with existing key "@ + key_marker()
        + key_value(old) + "."@
}

/// Whether the texts of a key can be told apart once written: the resource
/// is not empty, neither it nor the start holds a comma, and the end holds
/// no closing round bracket.
pub open spec fn writable(w: RawWindowView) -> bool {
    &&& w.rid.len() > 0
    &&& forall|i: int| 0 <= i < w.rid.len() ==> w.rid[i] != ','
    &&& forall|i: int| 0 <= i < w.start.len() ==> w.start[i] != ','
    &&& forall|i: int| 0 <= i < w.end.len() ==> w.end[i] != ')'
}

/// Where the value of a key stands in a text as the store writes it, the key
/// is read from there, and the reading ends where the value ends.
pub proof fn lemma_written_key_is_read(s: Seq<char>, at: int, w: RawWindowView)
    requires
        0 <= at,
        occurs_at(s, key_value(w), at),
        writable(w),
    ensures
        window_at(s, at) == Some((w, at + key_value(w).len())),
{
    reveal_strlit(", [\"");
    reveal_strlit("\",\"");
    reveal_strlit("\"))");
    let v = key_value(w);
    let r = w.rid.len() as int;
    let a = w.start.len() as int;
    let b = w.end.len() as int;
    assert(v.len() == r + a + b + 10);
    assert forall|i: int| 0 <= i < v.len() implies s[at + i] == v[i] by {
        assert(s.subrange(at, at + v.len())[i] == s[at + i]);
    }
    let c = at + r;
    let d = c + a + 5;
    let f = d + b + 3;
    assert forall|i: int| at <= i < c implies s[i] != ',' by {
        assert(s[at + (i - at)] == v[i - at]);
    }
    assert(s[at + r] == v[r]);
    lemma_find_char_ends_at(s, ',', at, c);
    assert(s[at + (r + 1)] == v[r + 1]);
    assert(s[at + (r + 2)] == v[r + 2]);
    assert forall|i: int| c + 3 <= i < d implies s[i] != ',' by {
        assert(s[at + (i - at)] == v[i - at]);
    }
    assert(s[at + (r + a + 5)] == v[r + a + 5]);
    lemma_find_char_ends_at(s, ',', c + 3, d);
    assert forall|i: int| d + 1 <= i < f implies s[i] != ')' by {
        assert(s[at + (i - at)] == v[i - at]);
    }
    assert(s[at + (r + a + b + 8)] == v[r + a + b + 8]);
    lemma_find_char_ends_at(s, ')', d + 1, f);
    assert(s[at + (r + a + b + 9)] == v[r + a + b + 9]);
    assert(s.subrange(at, c) =~= w.rid) by {
        assert forall|i: int| 0 <= i < r implies s.subrange(at, c)[i] == w.rid[i] by {
            assert(s[at + i] == v[i]);
        }
    }
    let quoted_start = s.subrange(c + 3, d);
    assert(quoted_start[0] == '"') by {
        assert(s[at + (r + 3)] == v[r + 3]);
    }
    assert(quoted_start[a + 1] == '"') by {
        assert(s[at + (r + a + 4)] == v[r + a + 4]);
    }
    assert(quoted_start.subrange(1, a + 1) =~= w.start) by {
        assert forall|i: int| 0 <= i < a implies quoted_start.subrange(1, a + 1)[i]
            == w.start[i] by {
            assert(s[at + (r + 4 + i)] == v[r + 4 + i]);
        }
    }
    let quoted_end = s.subrange(d + 1, f);
    assert(quoted_end[0] == '"') by {
        assert(s[at + (r + a + 6)] == v[r + a + 6]);
    }
    assert(quoted_end[b + 1] == '"') by {
        assert(s[at + (r + a + b + 7)] == v[r + a + b + 7]);
    }
    assert(quoted_end.subrange(1, b + 1) =~= w.end) by {
        assert forall|i: int| 0 <= i < b implies quoted_end.subrange(1, b + 1)[i] == w.end[i] by {
            assert(s[at + (r + a + 7 + i)] == v[r + a + 7 + i]);
        }
    }
}

/// The detail that the store writes for two keys is read back as those two
/// keys, in their order.
pub proof fn lemma_written_detail_is_scanned(new: RawWindowView, old: RawWindowView)
    requires
        writable(new),
        writable(old),
    ensures
        scanned(detail_of(new, old)) == Some((new, old)),
        located(detail_of(new, old)) == Some((new, old, detail_of(new, old).len() - 1)),
{
    reveal_strlit("Key ");
    reveal_strlit("(resource_id, timespan)=(");
    reveal_strlit(" conflicts with existing key ");
    reveal_strlit(".");
    let s = detail_of(new, old);
    let key = key_marker();
    let joint = " conflicts with existing key "@;
    let v1 = key_value(new);
    let v2 = key_value(old);
    let k = key.len() as int;
    let n1 = 4 + k + v1.len();
    let second = n1 + joint.len();
    let n2 = second + k + v2.len();
    assert(s.len() == n2 + 1);
    assert(s.subrange(4, 4 + k) =~= key);
    lemma_find_ends_at(s, key, 0, 4);
    assert(s.subrange(4 + k, n1) =~= v1);
    lemma_written_key_is_read(s, 4 + k, new);
    assert(s.subrange(second, second + k) =~= key);
    assert forall|i: int| n1 <= i < second implies s[i] != key[0] by {
        assert(s[i] == joint[i - n1]);
    }
    lemma_find_ends_at(s, key, n1, second);
    assert(s.subrange(second + k, n2) =~= v2);
    lemma_written_key_is_read(s, second + k, old);
    assert(find(s, key, n2) is None);
}

} // verus!
