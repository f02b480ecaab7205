//! Small helpers over the characters of strings.
use vstd::prelude::*;
use vstd::std_specs::iter::IteratorSpec;

verus! {

broadcast use {vstd::string::axiom_spec_iter, vstd::string::next_postcondition};

/// The characters of `s`, in order.
pub fn chars_of(s: &str) -> (r: Vec<char>)
    ensures
        r@ == s@,
{
    let mut out: Vec<char> = Vec::new();
    for c in it: s.chars()
        invariant
            it.seq() == s@,
            out@ == it.seq().subrange(0, it.index() as int),
    {
        out.push(c);
    }
    assert(out@ =~= s@);
    out
}

/// Whether `p` is a prefix of `s`.
pub open spec fn has_prefix<T>(s: Seq<T>, p: Seq<T>) -> bool {
    p.len() <= s.len() && s.subrange(0, p.len() as int) == p
}

/// Whether the characters of `p` begin `s`.
pub fn chars_start_with(s: &Vec<char>, p: &Vec<char>) -> (r: bool)
    ensures
        r == has_prefix(s@, p@),
{
    if p.len() > s.len() {
        return false;
    }
    let mut i: usize = 0;
    while i < p.len()
        invariant
            p.len() <= s.len(),
            i <= p.len(),
            forall|j: int| 0 <= j < i ==> s@[j] == p@[j],
        decreases p.len() - i,
    {
        if s[i] != p[i] {
            assert(s@.subrange(0, p.len() as int)[i as int] != p@[i as int]);
            return false;
        }
        i = i + 1;
    }
    assert(s@.subrange(0, p.len() as int) =~= p@);
    true
}

/// Whether `s` holds exactly the characters of `t`.
pub fn chars_equal(s: &Vec<char>, t: &Vec<char>) -> (r: bool)
    ensures
        r == (s@ == t@),
{
    if s.len() != t.len() {
        return false;
    }
    let r = chars_start_with(s, t);
    assert(s@ =~= s@.subrange(0, t@.len() as int));
    r
}

} // verus!
