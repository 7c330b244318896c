//! The requirement set and its reconciliation against an installed-package
//! listing.
//!
//! The listing is the raw standard output of the package manager's
//! freeze-format query: one `name==version` line per installed package. A
//! requirement counts as installed exactly when some line of the listing
//! starts with its name followed by `==`; version text is never interpreted.

use vstd::prelude::*;
use vstd::string::StrSliceExecFns;
use vstd::string::StringSliceAdditionalSpecFns;
use crate::bytes::is_prefix_of;
use crate::bytes::matches_at;

verus! {

/// The byte that separates the lines of the listing output.
pub const LINE_FEED: u8 = 10;

/// The byte `=`; a listing line reads `name==version`.
pub const EQUALS_SIGN: u8 = 61;

/// The first required package.
pub open spec fn spec_torch() -> Seq<u8> {
    "torch".spec_bytes()
}

/// The second required package.
pub open spec fn spec_pytest() -> Seq<u8> {
    "pytest".spec_bytes()
}

/// The third required package.
pub open spec fn spec_numpy() -> Seq<u8> {
    "numpy".spec_bytes()
}

/// The fixed, ordered requirement set of the runner.
pub open spec fn spec_requirements() -> Seq<Seq<u8>> {
    seq![spec_torch(), spec_pytest(), spec_numpy()]
}

/// The names of the requirement set, in order.
pub fn requirement_names() -> (r: Vec<Vec<u8>>)
    ensures
        r@.len() == spec_requirements().len(),
        forall|j: int| 0 <= j < r@.len() ==> r@[j]@ == spec_requirements()[j],
{
    let mut r: Vec<Vec<u8>> = Vec::new();
    r.push("torch".as_bytes_vec());
    r.push("pytest".as_bytes_vec());
    r.push("numpy".as_bytes_vec());
    r
}

/// Position `i` begins a line of `s`.
pub open spec fn line_start(s: Seq<u8>, i: int) -> bool {
    i == 0 || s[i - 1] == LINE_FEED
}

/// The marker whose presence at a line start means the package is listed:
/// the package name followed by `==`.
pub open spec fn spec_marker(name: Seq<u8>) -> Seq<u8> {
    name + seq![EQUALS_SIGN, EQUALS_SIGN]
}

/// Package `name` appears in listing `s`: some line starts with `name==`.
pub open spec fn spec_package_installed(s: Seq<u8>, name: Seq<u8>) -> bool {
    exists|i: int|
        0 <= i <= s.len() && line_start(s, i) && is_prefix_of(
            spec_marker(name),
            #[trigger] s.skip(i),
        )
}

/// The marker `name==` stands at offset `off` of `s`.
fn marker_at(s: &Vec<u8>, off: usize, name: &Vec<u8>) -> (r: bool)
    requires
        off <= s@.len(),
    ensures
        r == is_prefix_of(spec_marker(name@), s@.skip(off as int)),
{
    let ghost suffix = s@.skip(off as int);
    if !matches_at(s, off, name) {
        assert(!is_prefix_of(spec_marker(name@), suffix)) by {
            if is_prefix_of(spec_marker(name@), suffix) {
                assert(suffix.subrange(0, name@.len() as int) =~= suffix.subrange(
                    0,
                    spec_marker(name@).len() as int,
                ).subrange(0, name@.len() as int));
                assert(suffix.subrange(0, name@.len() as int) =~= name@);
            }
        };
        return false;
    }
    let n = name.len();
    if s.len() - off - n < 2 {
        return false;
    }
    if s[off + n] == EQUALS_SIGN && s[off + n + 1] == EQUALS_SIGN {
        assert(suffix.subrange(0, name@.len() as int) == name@);
        assert(suffix.subrange(0, spec_marker(name@).len() as int) =~= spec_marker(name@)) by {
            assert(forall|k: int|
                0 <= k < name@.len() ==> suffix[k] == suffix.subrange(0, name@.len() as int)[k]);
            assert(suffix[name@.len() as int] == EQUALS_SIGN);
            assert(suffix[name@.len() as int + 1] == EQUALS_SIGN);
        };
        true
    } else {
        assert(!is_prefix_of(spec_marker(name@), suffix)) by {
            if is_prefix_of(spec_marker(name@), suffix) {
                assert(suffix[name@.len() as int] == spec_marker(name@)[name@.len() as int]);
                assert(suffix[name@.len() as int + 1] == spec_marker(name@)[name@.len() as int
                    + 1]);
            }
        };
        false
    }
}

/// Whether `name` is listed as installed in the listing bytes `listing`:
/// some line of the listing starts with `name==`.
pub fn is_package_installed(listing: &Vec<u8>, name: &Vec<u8>) -> (r: bool)
    ensures
        r == spec_package_installed(listing@, name@),
{
    if marker_at(listing, 0, name) {
        assert(line_start(listing@, 0));
        return true;
    }
    let mut i: usize = 0;
    while i < listing.len()
        invariant
            i <= listing@.len(),
            !is_prefix_of(spec_marker(name@), listing@.skip(0)),
            forall|k: int|
                0 < k <= i && line_start(listing@, k) ==> !is_prefix_of(
                    spec_marker(name@),
                    #[trigger] listing@.skip(k),
                ),
        decreases listing@.len() - i,
    {
        if listing[i] == LINE_FEED {
            if marker_at(listing, i + 1, name) {
                assert(line_start(listing@, i + 1));
                return true;
            }
        }
        i += 1;
    }
    false
}

/// The outcome of the installed-package query, as the reconciler sees it:
/// the captured listing bytes when the query succeeded, nothing otherwise.
pub open spec fn spec_requirements_satisfied(listing: Option<Seq<u8>>) -> bool {
    match listing {
        Some(s) => spec_all_installed(s),
        None => false,
    }
}

/// Every required package appears in listing `s`.
pub open spec fn spec_all_installed(s: Seq<u8>) -> bool {
    forall|j: int|
        0 <= j < spec_requirements().len() ==> spec_package_installed(
            s,
            #[trigger] spec_requirements()[j],
        )
}

/// Whether every required package is installed, judged from the outcome of
/// the installed-package query. A failed query (`None`) counts as "not
/// satisfied", so the caller goes on to attempt installation rather than
/// silently reporting success.
pub fn are_requirements_installed(listing: Option<&Vec<u8>>) -> (r: bool)
    ensures
        r == spec_requirements_satisfied(
            match listing {
                Some(l) => Some(l@),
                None => None,
            },
        ),
        listing is None ==> r == false,
{
    match listing {
        None => false,
        Some(l) => {
            let names = requirement_names();
            let mut j: usize = 0;
            while j < names.len()
                invariant
                    listing == Some(l),
                    j <= names@.len(),
                    names@.len() == spec_requirements().len(),
                    forall|k: int| 0 <= k < names@.len() ==> names@[k]@ == spec_requirements()[k],
                    forall|k: int|
                        0 <= k < j ==> spec_package_installed(
                            l@,
                            #[trigger] spec_requirements()[k],
                        ),
                decreases names@.len() - j,
            {
                if !is_package_installed(l, &names[j]) {
                    proof {
                        assert(!spec_package_installed(l@, spec_requirements()[j as int]));
                        assert(!spec_all_installed(l@)) by {
                            if spec_all_installed(l@) {
                                assert(spec_package_installed(
                                    l@,
                                    spec_requirements()[j as int],
                                ));
                            }
                        };
                    }
                    return false;
                }
                j += 1;
            }
            true
        },
    }
}

} // verus!
