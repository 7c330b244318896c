//! The filtering rules of exercise-file discovery.
//!
//! Discovery walks the exercises tree and reports the Python source files
//! in it, skipping the conventional excluded subtrees: hidden entries,
//! generated caches, and environment directories. The walking itself is
//! plain directory I/O done by the caller; the rules deciding which paths
//! count live here, over paths as byte strings with `/` separating their
//! components.

use vstd::prelude::*;
use vstd::string::StrSliceExecFns;
use vstd::string::StringSliceAdditionalSpecFns;
use crate::bytes::is_suffix_of;
use crate::bytes::lemma_deep_view_of_byte_vecs;
use crate::bytes::range_eq;

verus! {

/// The byte `/`, separating the components of a path.
pub const PATH_SEP: u8 = 47;

/// The byte `.`; a component starting with it is hidden.
pub const DOT: u8 = 46;

/// Position `i` begins a component of path `p`.
pub open spec fn component_start(p: Seq<u8>, i: int) -> bool {
    i == 0 || p[i - 1] == PATH_SEP
}

/// Position `j` ends a component of path `p`.
pub open spec fn component_end(p: Seq<u8>, j: int) -> bool {
    j == p.len() || p[j] == PATH_SEP
}

/// `p[i .. j]` is one whole component of the path: it runs from a
/// component start to the next boundary with no separator inside.
pub open spec fn component_at(p: Seq<u8>, i: int, j: int) -> bool {
    &&& 0 <= i <= j <= p.len()
    &&& component_start(p, i)
    &&& component_end(p, j)
    &&& forall|k: int| i <= k < j ==> p[k] != PATH_SEP
}

/// A component conventionally excluded from discovery: hidden entries,
/// environment directories under their common names, and generated
/// caches.
pub open spec fn spec_ignored_component(c: Seq<u8>) -> bool {
    ||| c.len() > 0 && c[0] == DOT
    ||| c == "venv".spec_bytes()
    ||| c == "__pycache__".spec_bytes()
    ||| is_suffix_of("-venv".spec_bytes(), c)
}

/// Some component of the path is excluded, so the whole subtree under it
/// is skipped.
pub open spec fn spec_ignored_path(p: Seq<u8>) -> bool {
    exists|i: int, j: int| component_at(p, i, j) && spec_ignored_component(p.subrange(i, j))
}

/// The path names a Python source file: it ends in the source extension,
/// and the dot of that extension is neither the whole file name's first
/// byte nor preceded by a separator — a bare hidden entry like a lone
/// extension has no stem and does not count.
pub open spec fn spec_is_python_file(p: Seq<u8>) -> bool {
    &&& p.len() > ".py".spec_bytes().len()
    &&& is_suffix_of(".py".spec_bytes(), p)
    &&& p[p.len() - ".py".spec_bytes().len() - 1] != PATH_SEP
}

/// A path discovery reports: a Python source file on no excluded subtree.
pub open spec fn spec_discovered(p: Seq<u8>) -> bool {
    !spec_ignored_path(p) && spec_is_python_file(p)
}

/// The paths discovery reports, out of `paths`, in order.
pub open spec fn spec_discovered_files(paths: Seq<Seq<u8>>) -> Seq<Seq<u8>> {
    paths.filter(|q: Seq<u8>| spec_discovered(q))
}

/// The bytes `start .. end` of `p` form an excluded component name.
fn ignored_range(p: &Vec<u8>, start: usize, end: usize) -> (r: bool)
    requires
        start <= end <= p@.len(),
    ensures
        r == spec_ignored_component(p@.subrange(start as int, end as int)),
{
    let ghost c = p@.subrange(start as int, end as int);
    if end > start && p[start] == DOT {
        assert(c[0] == DOT);
        return true;
    }
    let venv = "venv".as_bytes_vec();
    if range_eq(p, start, end, &venv) {
        return true;
    }
    let pycache = "__pycache__".as_bytes_vec();
    if range_eq(p, start, end, &pycache) {
        return true;
    }
    let tail = "-venv".as_bytes_vec();
    let m = tail.len();
    if end - start >= m {
        if range_eq(p, end - m, end, &tail) {
            assert(is_suffix_of(tail@, c)) by {
                assert(c.subrange(c.len() - m, c.len() as int) =~= p@.subrange(
                    end - m,
                    end as int,
                ));
            };
            return true;
        }
    }
    assert(!spec_ignored_component(c)) by {
        if c.len() > 0 {
            assert(c[0] == p@[start as int]);
        }
        if is_suffix_of(tail@, c) {
            assert(p@.subrange(end - m, end as int) =~= c.subrange(c.len() - m, c.len() as int));
        }
    };
    false
}

/// Whether some component of the path is conventionally excluded, so the
/// path lies on a skipped subtree.
pub fn is_ignored_path(p: &Vec<u8>) -> (r: bool)
    ensures
        r == spec_ignored_path(p@),
{
    let n = p.len();
    let mut start: usize = 0;
    let mut i: usize = 0;
    while i < n
        invariant
            n == p@.len(),
            0 <= start <= i <= n,
            component_start(p@, start as int),
            forall|k: int| start <= k < i ==> p@[k] != PATH_SEP,
            forall|a: int, b: int|
                component_at(p@, a, b) && b < i ==> !spec_ignored_component(
                    #[trigger] p@.subrange(a, b),
                ),
        decreases n - i,
    {
        if p[i] == PATH_SEP {
            if ignored_range(p, start, i) {
                assert(component_at(p@, start as int, i as int));
                return true;
            }
            proof {
                assert forall|a: int, b: int|
                    component_at(p@, a, b) && b < i + 1 implies !spec_ignored_component(
                    #[trigger] p@.subrange(a, b),
                ) by {
                    if b == i {
                        assert(a == start) by {
                            if a < start {
                                assert(p@[start - 1] == PATH_SEP);
                            }
                            if a > start {
                                assert(p@[a - 1] != PATH_SEP);
                            }
                        };
                    }
                }
            }
            start = i + 1;
        }
        i += 1;
    }
    if ignored_range(p, start, n) {
        assert(component_at(p@, start as int, n as int));
        return true;
    }
    assert(!spec_ignored_path(p@)) by {
        assert forall|a: int, b: int| component_at(p@, a, b) implies !spec_ignored_component(
            #[trigger] p@.subrange(a, b),
        ) by {
            if b == n {
                assert(a == start) by {
                    if a < start {
                        assert(p@[start - 1] == PATH_SEP);
                    }
                    if a > start {
                        assert(p@[a - 1] != PATH_SEP);
                    }
                };
            }
        }
    };
    false
}

/// Whether the path names a Python source file, judged from its
/// extension.
pub fn is_python_file(path: &Vec<u8>) -> (r: bool)
    ensures
        r == spec_is_python_file(path@),
{
    let ext = ".py".as_bytes_vec();
    let m = ext.len();
    let n = path.len();
    if n <= m {
        return false;
    }
    if !range_eq(path, n - m, n, &ext) {
        return false;
    }
    if path[n - m - 1] == PATH_SEP {
        return false;
    }
    true
}

/// One step of the discovery filter: extending the scanned prefix by one
/// path either appends that path to the reported ones or leaves them as
/// they were.
proof fn lemma_discovered_take_step(paths: Seq<Seq<u8>>, j: int)
    requires
        0 <= j < paths.len(),
    ensures
        spec_discovered_files(paths.take(j + 1)) == if spec_discovered(paths[j]) {
            spec_discovered_files(paths.take(j)).push(paths[j])
        } else {
            spec_discovered_files(paths.take(j))
        },
{
    reveal_with_fuel(Seq::filter, 2);
    assert(paths.take(j + 1).drop_last() =~= paths.take(j));
    assert(paths.take(j + 1).last() == paths[j]);
}

/// The discovery filter: keep exactly the Python source files that lie on
/// no excluded subtree, in the order given.
pub fn find_python_files(paths: Vec<Vec<u8>>) -> (r: Vec<Vec<u8>>)
    ensures
        r.deep_view() == spec_discovered_files(paths.deep_view()),
{
    let ghost orig = paths.deep_view();
    proof {
        lemma_deep_view_of_byte_vecs(paths);
        assert(orig.take(0) =~= Seq::<Seq<u8>>::empty());
        reveal_with_fuel(Seq::filter, 1);
    }
    let mut rest = paths;
    let mut r: Vec<Vec<u8>> = Vec::new();
    while rest.len() > 0
        invariant
            rest@.len() <= orig.len(),
            forall|k: int|
                0 <= k < rest@.len() ==> #[trigger] rest@[k]@ == orig[orig.len() - rest@.len()
                    + k],
            r.deep_view() =~~= spec_discovered_files(orig.take(orig.len() - rest@.len())),
        decreases rest@.len(),
    {
        let ghost j = orig.len() - rest@.len();
        let p = rest.remove(0);
        assert(p@ == orig[j]);
        let keep = if is_ignored_path(&p) {
            false
        } else {
            is_python_file(&p)
        };
        assert(keep == spec_discovered(p@));
        if keep {
            r.push(p);
        }
        proof {
            lemma_discovered_take_step(orig, j);
            lemma_deep_view_of_byte_vecs(r);
            assert(r.deep_view() =~~= spec_discovered_files(orig.take(j + 1)));
        }
    }
    proof {
        assert(orig.take(orig.len() as int) =~= orig);
        assert(r.deep_view() =~~= spec_discovered_files(orig));
    }
    r
}

} // verus!
