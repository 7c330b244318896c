//! Small verified helpers on byte vectors.
//!
//! Process output, package names and file paths are all handled as plain
//! bytes; these helpers give the prefix and range comparisons the rest of
//! the library builds on.

use vstd::prelude::*;

verus! {

/// `p` is a prefix of `s`.
pub open spec fn is_prefix_of(p: Seq<u8>, s: Seq<u8>) -> bool {
    p.len() <= s.len() && s.subrange(0, p.len() as int) == p
}

/// `p` is a suffix of `s`.
pub open spec fn is_suffix_of(p: Seq<u8>, s: Seq<u8>) -> bool {
    p.len() <= s.len() && s.subrange(s.len() - p.len(), s.len() as int) == p
}

/// A list of byte vectors' mathematical picture is its elements' views,
/// element by element.
pub proof fn lemma_deep_view_of_byte_vecs(v: Vec<Vec<u8>>)
    ensures
        v.deep_view().len() == v@.len(),
        forall|i: int| 0 <= i < v@.len() ==> v.deep_view()[i] == v@[i]@,
{
    assert forall|i: int| 0 <= i < v@.len() implies v.deep_view()[i] == v@[i]@ by {
        assert(v.deep_view()[i] =~= v@[i]@);
    }
}

/// The bytes of `s` from `off` onwards begin with `p`.
pub fn matches_at(s: &Vec<u8>, off: usize, p: &Vec<u8>) -> (r: bool)
    requires
        off <= s@.len(),
    ensures
        r == is_prefix_of(p@, s@.skip(off as int)),
{
    if s.len() - off < p.len() {
        return false;
    }
    let mut j: usize = 0;
    while j < p.len()
        invariant
            j <= p@.len(),
            off + p@.len() <= s@.len(),
            s@.len() <= usize::MAX,
            forall|k: int| 0 <= k < j ==> s@[off + k] == p@[k],
        decreases p@.len() - j,
    {
        if s[off + j] != p[j] {
            assert(s@.skip(off as int).subrange(0, p@.len() as int)[j as int] != p@[j as int]);
            return false;
        }
        j += 1;
    }
    assert(s@.skip(off as int).subrange(0, p@.len() as int) =~= p@);
    true
}

/// The bytes `start .. end` of `s` are exactly `name`.
pub fn range_eq(s: &Vec<u8>, start: usize, end: usize, name: &Vec<u8>) -> (r: bool)
    requires
        start <= end <= s@.len(),
    ensures
        r == (s@.subrange(start as int, end as int) == name@),
{
    if end - start != name.len() {
        return false;
    }
    let slen = s.len();
    assert(s@.len() == slen);
    let mut j: usize = 0;
    while j < name.len()
        invariant
            j <= name@.len(),
            start + name@.len() == end <= s@.len(),
            s@.len() <= usize::MAX,
            forall|k: int| 0 <= k < j ==> s@[start + k] == name@[k],
        decreases name@.len() - j,
    {
        if s[start + j] != name[j] {
            assert(s@.subrange(start as int, end as int)[j as int] != name@[j as int]);
            return false;
        }
        j += 1;
    }
    assert(s@.subrange(start as int, end as int) =~= name@);
    true
}

} // verus!
