//! Marker discovery: the walk from the working directory up to the root,
//! looking for the project marker file.
//!
//! The caller probes the filesystem once per ancestor and hands the results
//! over as a vector of booleans: `marker_at[k]` says whether the marker file
//! exists in the ancestor made of the first `k` components of the working
//! directory (`k == 0` is the root, `k == n` the working directory itself).

use vstd::prelude::*;

use crate::path::AbsPath;

verus! {

/// The name of the marker file whose presence designates a project root.
pub fn marker_file_name() -> (r: String)
    ensures
        r@ == "py.mod"@,
{
    "py.mod".to_owned()
}

/// The number of components of the deepest marked ancestor, if any:
/// the largest `k` with `marker_at[k]`.
pub open spec fn deepest_marked(marker_at: Seq<bool>) -> Option<int>
    decreases marker_at.len(),
{
    if marker_at.len() == 0 {
        None
    } else if marker_at.last() {
        Some(marker_at.len() - 1)
    } else {
        deepest_marked(marker_at.drop_last())
    }
}

/// The directory whose marker file governs a run started in `cwd`: the
/// closest ancestor (including `cwd` itself) where the marker was found, or
/// `None` when no ancestor has one.
pub fn find_python_mod_dir(cwd: &AbsPath, marker_at: &Vec<bool>) -> (r: Option<AbsPath>)
    requires
        marker_at@.len() == cwd@.len() + 1,
    ensures
        match r {
            Some(d) => {
                &&& deepest_marked(marker_at@) is Some
                &&& d@ == cwd@.subrange(0, deepest_marked(marker_at@)->0)
            },
            None => deepest_marked(marker_at@) is None,
        },
{
    let n: usize = marker_at.len();
    let mut k: usize = n;
    proof {
        assert(marker_at@.subrange(0, n as int) =~= marker_at@);
    }
    while k > 0
        invariant
            k <= n,
            n == marker_at@.len() == cwd@.len() + 1,
            deepest_marked(marker_at@) == deepest_marked(marker_at@.subrange(0, k as int)),
        decreases k,
    {
        proof {
            assert(marker_at@.subrange(0, k as int).last() == marker_at@[k - 1]);
        }
        if marker_at[k - 1] {
            return Some(cwd.prefix(k - 1));
        }
        proof {
            assert(marker_at@.subrange(0, k as int).drop_last() =~= marker_at@.subrange(
                0,
                k - 1,
            ));
        }
        k = k - 1;
    }
    proof {
        assert(marker_at@.subrange(0, 0) =~= Seq::<bool>::empty());
    }
    None
}

/// What discovery reports is right: a reported ancestor holds the marker
/// and no deeper ancestor does, and "not found" means no ancestor holds it.
pub proof fn lemma_locate_sound(marker_at: Seq<bool>)
    ensures
        match deepest_marked(marker_at) {
            Some(k) => {
                &&& 0 <= k < marker_at.len()
                &&& marker_at[k]
                &&& forall|j: int| k < j < marker_at.len() ==> !marker_at[j]
            },
            None => forall|j: int| 0 <= j < marker_at.len() ==> !marker_at[j],
        },
    decreases marker_at.len(),
{
    if marker_at.len() > 0 && !marker_at.last() {
        let dl = marker_at.drop_last();
        lemma_locate_sound(dl);
        match deepest_marked(marker_at) {
            Some(k) => {
                assert(dl[k] == marker_at[k]);
                assert forall|j: int| k < j < marker_at.len() implies !marker_at[j] by {
                    if j < dl.len() {
                        assert(dl[j] == marker_at[j]);
                    }
                }
            },
            None => {
                assert forall|j: int| 0 <= j < marker_at.len() implies !marker_at[j] by {
                    if j < dl.len() {
                        assert(dl[j] == marker_at[j]);
                    }
                }
            },
        }
    }
}

/// Discovery finds exactly the marked ancestor nothing is closer than: if
/// the ancestor of `k` components is marked and no deeper one (up to the
/// working directory) is, the walk ends there; and where no ancestor at all
/// is marked, the walk reports none.
pub proof fn lemma_locate_closest_marked(marker_at: Seq<bool>, k: int)
    requires
        0 <= k < marker_at.len(),
        marker_at[k],
        forall|j: int| k < j < marker_at.len() ==> !marker_at[j],
    ensures
        deepest_marked(marker_at) == Some(k),
    decreases marker_at.len(),
{
    if marker_at.len() - 1 > k {
        lemma_locate_closest_marked(marker_at.drop_last(), k);
    }
}

/// Where no ancestor holds the marker, discovery reports "not found".
pub proof fn lemma_locate_none(marker_at: Seq<bool>)
    requires
        forall|j: int| 0 <= j < marker_at.len() ==> !marker_at[j],
    ensures
        deepest_marked(marker_at) is None,
    decreases marker_at.len(),
{
    if marker_at.len() > 0 {
        lemma_locate_none(marker_at.drop_last());
    }
}

/// Discovery does not depend on how far below the marker the walk starts:
/// descending any further, through directories that carry no marker of
/// their own, leaves the outcome unchanged.
pub proof fn lemma_locate_depth_independent(marker_at: Seq<bool>, below: Seq<bool>)
    requires
        forall|j: int| 0 <= j < below.len() ==> !below[j],
    ensures
        deepest_marked(marker_at + below) == deepest_marked(marker_at),
    decreases below.len(),
{
    if below.len() == 0 {
        assert(marker_at + below =~= marker_at);
    } else {
        assert((marker_at + below).last() == below.last());
        assert((marker_at + below).drop_last() =~= marker_at + below.drop_last());
        lemma_locate_depth_independent(marker_at, below.drop_last());
    }
}

/// Discovery started from any descendant returns the same directory as
/// discovery started at the marked ancestor's own depth: descending by
/// `below`, none of it marked, neither changes the outcome nor the
/// directory the outcome names.
pub proof fn lemma_locate_same_directory(
    cwd: Seq<Seq<char>>,
    below: Seq<Seq<char>>,
    marker_at: Seq<bool>,
    below_at: Seq<bool>,
)
    requires
        marker_at.len() == cwd.len() + 1,
        below_at.len() == below.len(),
        forall|j: int| 0 <= j < below_at.len() ==> !below_at[j],
    ensures
        deepest_marked(marker_at + below_at) == deepest_marked(marker_at),
        match deepest_marked(marker_at) {
            Some(k) => (cwd + below).subrange(0, k) == cwd.subrange(0, k),
            None => true,
        },
{
    lemma_locate_depth_independent(marker_at, below_at);
    lemma_locate_sound(marker_at);
    match deepest_marked(marker_at) {
        Some(k) => {
            assert((cwd + below).subrange(0, k) =~= cwd.subrange(0, k));
        },
        None => {},
    }
}

} // verus!
