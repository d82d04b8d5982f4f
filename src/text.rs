//! Character-level helpers shared by the parsers of this crate.

use vstd::prelude::*;

verus! {

/// The part of `s` after the last `sep`; all of `s` when `sep` does not occur.
/// This is the last piece of `s` split on `sep`.
pub open spec fn last_field(s: Seq<char>, sep: char) -> Seq<char>
    decreases s.len(),
{
    if s.len() == 0 {
        s
    } else if s.last() == sep {
        Seq::empty()
    } else {
        last_field(s.drop_last(), sep).push(s.last())
    }
}

/// `s` with every `from` replaced by `to`.
pub open spec fn replace_char(s: Seq<char>, from: char, to: char) -> Seq<char> {
    s.map_values(|c: char| if c == from { to } else { c })
}

/// Whether `c` is a double quote or a space.
pub open spec fn is_quote_or_space(c: char) -> bool {
    c == '"' || c == ' '
}

/// `s` with every double quote and every space removed.
pub open spec fn without_quotes_spaces(s: Seq<char>) -> Seq<char>
    decreases s.len(),
{
    if s.len() == 0 {
        s
    } else if is_quote_or_space(s.last()) {
        without_quotes_spaces(s.drop_last())
    } else {
        without_quotes_spaces(s.drop_last()).push(s.last())
    }
}

/// `m` occurs in `t` starting at index `k`.
pub open spec fn occurs_at(t: Seq<char>, k: int, m: Seq<char>) -> bool {
    &&& 0 <= k
    &&& k + m.len() <= t.len()
    &&& forall|j: int| 0 <= j < m.len() ==> #[trigger] t[k + j] == m[j]
}

/// `m` occurs somewhere in `t`.
pub open spec fn contains(t: Seq<char>, m: Seq<char>) -> bool {
    exists|k: int| occurs_at(t, k, m)
}

/// Relies on `String::push`: appends one character at the end.
#[verifier::external_body]
pub(crate) fn push_char(s: &mut String, c: char)
    ensures
        final(s)@ == old(s)@.push(c),
{
    s.push(c)
}

/// The characters of `s`, in order.
pub fn chars_of(s: &str) -> (v: Vec<char>)
    ensures
        v@ == s@,
{
    let mut v: Vec<char> = Vec::new();
    for c in it: s.chars()
        invariant
            v@ == it.seq().take(it.index() as int),
            it.seq() == s@,
    {
        v.push(c);
    }
    v
}

/// A string holding the characters of `v`.
pub fn string_of(v: &Vec<char>) -> (s: String)
    ensures
        s@ == v@,
{
    let mut s = String::new();
    for i in 0..v.len()
        invariant
            s@ == v@.take(i as int),
    {
        push_char(&mut s, v[i]);
        assert(v@.take(i + 1) == v@.take(i as int).push(v@[i as int]));
    }
    assert(v@.take(v.len() as int) == v@);
    s
}

/// The last piece of `s[lo..hi]` split on `sep`.
pub fn last_field_in(s: &Vec<char>, lo: usize, hi: usize, sep: char) -> (r: Vec<char>)
    requires
        lo <= hi <= s.len(),
    ensures
        r@ == last_field(s@.subrange(lo as int, hi as int), sep),
{
    let mut r: Vec<char> = Vec::new();
    for i in lo..hi
        invariant
            lo <= hi <= s.len(),
            r@ == last_field(s@.subrange(lo as int, i as int), sep),
    {
        let ghost before = s@.subrange(lo as int, i as int);
        assert(s@.subrange(lo as int, i + 1).drop_last() == before);
        if s[i] == sep {
            r = Vec::new();
        } else {
            r.push(s[i]);
        }
    }
    r
}

/// `v` with every double quote and every space removed.
pub fn strip_quotes_spaces(v: &Vec<char>) -> (r: Vec<char>)
    ensures
        r@ == without_quotes_spaces(v@),
{
    let mut r: Vec<char> = Vec::new();
    for i in 0..v.len()
        invariant
            r@ == without_quotes_spaces(v@.take(i as int)),
    {
        assert(v@.take(i + 1).drop_last() == v@.take(i as int));
        let c = v[i];
        if !(c == '"' || c == ' ') {
            r.push(c);
        }
    }
    assert(v@.take(v.len() as int) == v@);
    r
}

/// `v` with every `from` replaced by `to`.
pub fn replace_in(v: &Vec<char>, from: char, to: char) -> (r: Vec<char>)
    ensures
        r@ == replace_char(v@, from, to),
{
    let mut r: Vec<char> = Vec::new();
    for i in 0..v.len()
        invariant
            r@ == replace_char(v@.take(i as int), from, to),
    {
        let c = v[i];
        if c == from {
            r.push(to);
        } else {
            r.push(c);
        }
        assert(r@ == replace_char(v@.take(i + 1), from, to));
    }
    assert(v@.take(v.len() as int) == v@);
    r
}

/// Whether `m` occurs in `s[lo..hi]`.
pub fn contains_in(s: &Vec<char>, lo: usize, hi: usize, m: &Vec<char>) -> (r: bool)
    requires
        lo <= hi <= s.len(),
    ensures
        r == contains(s@.subrange(lo as int, hi as int), m@),
{
    let ghost t = s@.subrange(lo as int, hi as int);
    if m.len() > hi - lo {
        assert(!contains(t, m@));
        return false;
    }
    let last: usize = hi - m.len();
    let mut k: usize = lo;
    while k <= last
        invariant
            lo <= k <= last + 1,
            last + m.len() == hi,
            hi <= s.len(),
            t == s@.subrange(lo as int, hi as int),
            forall|p: int| 0 <= p < k - lo ==> !occurs_at(t, p, m@),
        decreases last + 1 - k,
    {
        let mut j: usize = 0;
        let mut same = true;
        while j < m.len()
            invariant
                j <= m.len(),
                k + m.len() <= hi <= s.len(),
                same <==> forall|q: int| 0 <= q < j ==> s@[k + q] == m@[q],
            decreases m.len() - j,
        {
            if s[k + j] != m[j] {
                same = false;
            }
            j = j + 1;
        }
        if same {
            assert(occurs_at(t, k - lo, m@)) by {
                assert forall|q: int| 0 <= q < m.len() implies t[(k - lo) + q] == m@[q] by {
                    assert(s@[k + q] == m@[q]);
                }
            }
            return true;
        }
        assert(!occurs_at(t, k - lo, m@)) by {
            let q = choose|q: int| 0 <= q < m.len() && s@[k + q] != m@[q];
            assert(t[(k - lo) + q] == s@[k + q]);
        }
        k = k + 1;
    }
    assert(!contains(t, m@));
    false
}

} // verus!
