//! Character-level helpers shared by the parsers of this crate.
use vstd::prelude::*;

verus! {

/// `p` occurs in `s` starting at position `i`.
pub open spec fn occurs_at(s: Seq<char>, i: int, p: Seq<char>) -> bool {
    &&& 0 <= i
    &&& i + p.len() <= s.len()
    &&& s.subrange(i, i + p.len()) == p
}

/// `s` begins with `p`.
pub open spec fn has_prefix(s: Seq<char>, p: Seq<char>) -> bool {
    occurs_at(s, 0, p)
}

/// `p` occurs somewhere in `s`.
pub open spec fn contains(s: Seq<char>, p: Seq<char>) -> bool {
    exists|i: int| occurs_at(s, i, p)
}

/// No character of `s` is `c`.
pub open spec fn free_of(s: Seq<char>, c: char) -> bool {
    forall|j: int| 0 <= j < s.len() ==> s[j] != c
}

/// The characters of `s`, collected so that they can be indexed in constant time.
pub fn chars_of(s: &str) -> (r: Vec<char>)
    ensures
        r@ == s@,
{
    let mut out: Vec<char> = Vec::new();
    for c in it: s.chars()
        invariant
            out@ == it.seq().take(it.index() as int),
            it.seq() == s@,
    {
        out.push(c);
    }
    out
}

/// Whether the window `s[start..end]` begins with `p`.
pub fn prefix_in(s: &Vec<char>, start: usize, end: usize, p: &Vec<char>) -> (r: bool)
    requires
        start <= end <= s.len(),
    ensures
        r == has_prefix(s@.subrange(start as int, end as int), p@),
{
    let ghost w = s@.subrange(start as int, end as int);
    if p.len() > end - start {
        return false;
    }
    let mut k: usize = 0;
    while k < p.len()
        invariant
            k <= p.len(),
            start + p.len() <= end <= s.len(),
            w == s@.subrange(start as int, end as int),
            forall|j: int| 0 <= j < k ==> w[j] == p@[j],
        decreases p.len() - k,
    {
        if s[start + k] != p[k] {
            assert(w.subrange(0, p@.len() as int)[k as int] != p@[k as int]);
            return false;
        }
        k += 1;
    }
    assert(w.subrange(0, p@.len() as int) =~= p@);
    true
}

/// Whether `p` occurs anywhere in `s`.
pub fn contains_chars(s: &Vec<char>, p: &Vec<char>) -> (r: bool)
    ensures
        r == contains(s@, p@),
{
    if p.len() > s.len() {
        assert(!contains(s@, p@));
        return false;
    }
    let last = s.len() - p.len();
    let mut i: usize = 0;
    while i <= last
        invariant
            i <= last,
            last == s.len() - p.len(),
            p.len() <= s.len(),
            forall|j: int| 0 <= j < i ==> !occurs_at(s@, j, p@),
        decreases last + 1 - i,
    {
        if prefix_in(s, i, s.len(), p) {
            assert(s@.subrange(i as int, s@.len() as int).subrange(0, p@.len() as int)
                =~= s@.subrange(i as int, i + p@.len()));
            assert(occurs_at(s@, i as int, p@));
            return true;
        }
        assert(s@.subrange(i as int, s@.len() as int).subrange(0, p@.len() as int)
            =~= s@.subrange(i as int, i + p@.len()));
        if i == last {
            return false;
        }
        i += 1;
    }
    false
}

/// Whether the window `s[start..end]` is exactly `p`.
pub fn window_is(s: &Vec<char>, start: usize, end: usize, p: &Vec<char>) -> (r: bool)
    requires
        start <= end <= s.len(),
    ensures
        r == (s@.subrange(start as int, end as int) == p@),
{
    let ghost w = s@.subrange(start as int, end as int);
    if end - start != p.len() {
        assert(w.len() != p@.len());
        return false;
    }
    let r = prefix_in(s, start, end, p);
    assert(w.subrange(0, p@.len() as int) =~= w);
    r
}

/// Whether two texts hold the same characters.
pub fn same_text(a: &str, b: &str) -> (r: bool)
    ensures
        r == (a@ == b@),
{
    let ac = chars_of(a);
    let bc = chars_of(b);
    let r = window_is(&ac, 0, ac.len(), &bc);
    assert(ac@.subrange(0, ac@.len() as int) =~= ac@);
    r
}

} // verus!
