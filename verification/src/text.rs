//! Searching in sequences of characters.

use vstd::prelude::*;
use vstd::string::StringExecFns;

verus! {

/// The place of the first `c` in `s` at or after `from`; the length of `s`
/// where there is none.
pub open spec fn find_char(s: Seq<char>, c: char, from: int) -> int
    decreases s.len() - from,
{
    if from >= s.len() {
        s.len() as int
    } else if s[from] == c {
        from
    } else {
        find_char(s, c, from + 1)
    }
}

/// Whether `pat` stands in `s` at place `at`.
pub open spec fn occurs_at(s: Seq<char>, pat: Seq<char>, at: int) -> bool {
    &&& 0 <= at
    &&& at + pat.len() <= s.len()
    &&& s.subrange(at, at + pat.len()) == pat
}

/// The first place at or after `from` where `pat` stands in `s`.
pub open spec fn find(s: Seq<char>, pat: Seq<char>, from: int) -> Option<int>
    decreases s.len() + 1 - from,
{
    if from + pat.len() > s.len() {
        None
    } else if occurs_at(s, pat, from) {
        Some(from)
    } else {
        find(s, pat, from + 1)
    }
}

/// `find_char` names the first match: nothing before it is `c`, and where it
/// lies inside `s` it is `c`.
pub proof fn lemma_find_char(s: Seq<char>, c: char, from: int)
    requires
        0 <= from <= s.len(),
    ensures
        from <= find_char(s, c, from) <= s.len(),
        find_char(s, c, from) < s.len() ==> s[find_char(s, c, from)] == c,
        forall|i: int| from <= i < find_char(s, c, from) ==> s[i] != c,
    decreases s.len() - from,
{
    if from < s.len() && s[from] != c {
        lemma_find_char(s, c, from + 1);
    }
}

/// `find` names the first match: the pattern stands there and at no place
/// between `from` and there; where it names none, the pattern stands nowhere
/// from `from` on.
pub proof fn lemma_find(s: Seq<char>, pat: Seq<char>, from: int)
    requires
        0 <= from,
    ensures
        match find(s, pat, from) {
            Some(p) => from <= p && occurs_at(s, pat, p) && forall|i: int|
                from <= i < p ==> !occurs_at(s, pat, i),
            None => forall|i: int| from <= i ==> !occurs_at(s, pat, i),
        },
    decreases s.len() + 1 - from,
{
    if from + pat.len() <= s.len() && !occurs_at(s, pat, from) {
        lemma_find(s, pat, from + 1);
    }
}

/// A search for a character ends at a place that holds it, if no place
/// between the start of the search and there holds it.
pub proof fn lemma_find_char_ends_at(s: Seq<char>, c: char, from: int, p: int)
    requires
        0 <= from <= p < s.len(),
        s[p] == c,
        forall|i: int| from <= i < p ==> s[i] != c,
    ensures
        find_char(s, c, from) == p,
    decreases p - from,
{
    if from < p {
        lemma_find_char_ends_at(s, c, from + 1, p);
    }
}

/// A search for a pattern ends at a place where it stands, if no place
/// between the start of the search and there holds its first character.
pub proof fn lemma_find_ends_at(s: Seq<char>, pat: Seq<char>, from: int, p: int)
    requires
        0 <= from <= p,
        pat.len() > 0,
        occurs_at(s, pat, p),
        forall|i: int| from <= i < p ==> s[i] != pat[0],
    ensures
        find(s, pat, from) == Some(p),
    decreases p - from,
{
    if from < p {
        assert(s.subrange(from, from + pat.len())[0] == s[from]);
        lemma_find_ends_at(s, pat, from + 1, p);
    }
}

/// In the first `k` characters of `s`, a search for a character finds what it
/// finds in `s` where that lies among them, and nothing otherwise.
pub proof fn lemma_find_char_in_prefix(s: Seq<char>, c: char, from: int, k: int)
    requires
        0 <= from,
        0 <= k <= s.len(),
    ensures
        find_char(s.take(k), c, from) == if find_char(s, c, from) < k {
            find_char(s, c, from)
        } else {
            k
        },
    decreases s.len() - from,
{
    if from < k {
        if s[from] != c {
            lemma_find_char_in_prefix(s, c, from + 1, k);
        }
    } else if from <= s.len() {
        lemma_find_char(s, c, from);
    }
}

/// In the first `k` characters of `s`, a search for a pattern finds what it
/// finds in `s` where that match ends among them, and nothing otherwise.
pub proof fn lemma_find_in_prefix(s: Seq<char>, pat: Seq<char>, from: int, k: int)
    requires
        0 <= from,
        0 <= k <= s.len(),
    ensures
        find(s.take(k), pat, from) == match find(s, pat, from) {
            Some(p) => if p + pat.len() <= k {
                Some(p)
            } else {
                None
            },
            None => None,
        },
{
    let t = s.take(k);
    lemma_find(s, pat, from);
    lemma_find(t, pat, from);
    assert forall|i: int| occurs_at(t, pat, i) implies occurs_at(s, pat, i) by {
        assert(s.subrange(i, i + pat.len()) =~= t.subrange(i, i + pat.len()));
    }
    assert forall|i: int| occurs_at(s, pat, i) && i + pat.len() <= k implies occurs_at(
        t,
        pat,
        i,
    ) by {
        assert(s.subrange(i, i + pat.len()) =~= t.subrange(i, i + pat.len()));
    }
}

/// Tells whether two texts are the same, character for character.
pub fn same_text(a: &str, b: &str) -> (r: bool)
    ensures
        r == (a@ == b@),
{
    let x = String::from_str(a);
    let y = String::from_str(b);
    x.eq(&y)
}

/// The characters of a string, one by one.
pub fn chars_of(s: &str) -> (v: Vec<char>)
    ensures
        v@ == s@,
{
    let mut v: Vec<char> = Vec::new();
    for c in it: s.chars()
        invariant
            v@ == it.seq().take(it.index()),
            it.seq() == s@,
    {
        v.push(c);
    }
    v
}

/// Looks for the first `c` at or after `from`.
pub fn index_of(s: &Vec<char>, c: char, from: usize) -> (r: usize)
    ensures
        r == find_char(s@, c, from as int),
        r <= s.len(),
        from <= s.len() ==> from <= r,
{
    if from > s.len() {
        return s.len();
    }
    let mut i: usize = from;
    while i < s.len() && s[i] != c
        invariant
            from <= i <= s.len(),
            find_char(s@, c, from as int) == find_char(s@, c, i as int),
        decreases s.len() - i,
    {
        i = i + 1;
    }
    i
}

/// Tells whether `pat` stands in `s` at place `at`.
pub fn occurs(s: &Vec<char>, pat: &Vec<char>, at: usize) -> (r: bool)
    ensures
        r == occurs_at(s@, pat@, at as int),
{
    if at > s.len() || pat.len() > s.len() - at {
        return false;
    }
    let mut j: usize = 0;
    while j < pat.len()
        invariant
            at + pat.len() <= s.len(),
            j <= pat.len(),
            forall|k: int| 0 <= k < j ==> s@[at + k] == pat@[k],
        decreases pat.len() - j,
    {
        if s[at + j] != pat[j] {
            assert(s@.subrange(at as int, at + pat.len())[j as int] != pat@[j as int]);
            return false;
        }
        j = j + 1;
    }
    assert(s@.subrange(at as int, at + pat.len()) =~= pat@);
    true
}

/// Looks for the first place at or after `from` where `pat` stands in `s`.
pub fn position(s: &Vec<char>, pat: &Vec<char>, from: usize) -> (r: Option<usize>)
    ensures
        match r {
            Some(p) => find(s@, pat@, from as int) == Some(p as int) && from <= p && p + pat.len()
                <= s.len(),
            None => find(s@, pat@, from as int) is None,
        },
{
    if from > s.len() || pat.len() > s.len() - from {
        return None;
    }
    let last: usize = s.len() - pat.len();
    let mut i: usize = from;
    loop
        invariant
            from <= i <= last,
            last + pat.len() == s.len(),
            find(s@, pat@, from as int) == find(s@, pat@, i as int),
        decreases last - i,
    {
        if occurs(s, pat, i) {
            return Some(i);
        }
        if i == last {
            assert(find(s@, pat@, i + 1) is None);
            return None;
        }
        i = i + 1;
    }
}

} // verus!
