//! Patch Chain Planner.
//!
//! Scans the catalog, newest first, for the release whose full artifact
//! matches the installed identity, then plans the minimal ordered chain of
//! incremental patches carrying that release to the newest one.  Any gap —
//! no matching release, or a newer release without a patch asset — degrades
//! the plan to a full reinstall, never to a partial chain.

use crate::model::{
    find_asset_index, first_match, opt_view, spec_full_suffix, spec_patch_suffix, Asset, Release,
};
use vstd::prelude::*;

verus! {

/// The plan to bring the installed artifact to the newest release.
pub enum PatchPlan {
    /// Apply these patch assets in order, oldest first.  An empty chain
    /// means the installed artifact already is the newest release.
    Patches(Vec<Asset>),
    /// No safe incremental chain exists; download the full artifact.
    Reinstall,
}

/// Whether `release` is the catalog entry of the installed artifact: its
/// first full-artifact asset carries a digest equal to the installed
/// identity, both present.  An absent identity — a first install, or an
/// unreadable file — matches no release, and an asset without a digest
/// matches no identity.
pub open spec fn release_matches(release: Release, installed: Option<Seq<char>>) -> bool {
    installed matches Some(h) && first_match(release.assets@, spec_full_suffix()) matches Some(a)
        && a.digest matches Some(d) && d@ == h
}

/// The first position at or after `i` whose release matches the installed
/// identity.
pub open spec fn installed_index_from(
    releases: Seq<Release>,
    installed: Option<Seq<char>>,
    i: int,
) -> Option<int>
    decreases releases.len() - i,
{
    if i < 0 || i >= releases.len() {
        None
    } else if release_matches(releases[i], installed) {
        Some(i)
    } else {
        installed_index_from(releases, installed, i + 1)
    }
}

/// The position of the installed release in the catalog: the first (that
/// is, newest) release matching the installed identity.
pub open spec fn installed_index(releases: Seq<Release>, installed: Option<Seq<char>>) -> Option<
    int,
> {
    installed_index_from(releases, installed, 0)
}

/// Every release strictly newer than position `k` offers a patch asset.
pub open spec fn chain_complete(releases: Seq<Release>, k: int) -> bool {
    forall|j: int|
        0 <= j < k ==> first_match(#[trigger] releases[j].assets@, spec_patch_suffix()) is Some
}

/// The patch chain for installed position `k`: the patch assets of the
/// releases at positions `k - 1` down to `0`, oldest first.
pub open spec fn chain_assets(releases: Seq<Release>, k: int) -> Seq<Asset>
    recommends
        0 <= k <= releases.len(),
        chain_complete(releases, k),
{
    Seq::new(k as nat, |i: int| first_match(releases[k - 1 - i].assets@, spec_patch_suffix())->Some_0)
}

/// What the planner yields: `None` stands for a reinstall, `Some(s)` for
/// the ordered chain `s`, possibly empty.
pub open spec fn plan_of(releases: Seq<Release>, installed: Option<Seq<char>>) -> Option<
    Seq<Asset>,
> {
    match installed_index(releases, installed) {
        Some(k) => if chain_complete(releases, k) {
            Some(chain_assets(releases, k))
        } else {
            None
        },
        None => None,
    }
}

/// An installed position is in range, matches, and nothing before it does.
pub proof fn lemma_installed_index_first(
    releases: Seq<Release>,
    installed: Option<Seq<char>>,
    i: int,
    k: int,
)
    requires
        installed_index_from(releases, installed, i) == Some(k),
        0 <= i,
    ensures
        i <= k < releases.len(),
        release_matches(releases[k], installed),
        forall|j: int| i <= j < k ==> !release_matches(#[trigger] releases[j], installed),
    decreases releases.len() - i,
{
    if i < releases.len() && !release_matches(releases[i], installed) {
        lemma_installed_index_first(releases, installed, i + 1, k);
    }
}

/// Locate the installed release: the first catalog entry whose full
/// artifact's digest equals the installed identity.
pub fn find_installed_index(releases: &Vec<Release>, installed: &Option<String>) -> (r: Option<
    usize,
>)
    ensures
        match r {
            Some(k) => k < releases@.len() && installed_index(releases@, opt_view(*installed))
                == Some(k as int),
            None => installed_index(releases@, opt_view(*installed)) is None,
        },
{
    let mut i: usize = 0;
    while i < releases.len()
        invariant
            i <= releases@.len(),
            installed_index(releases@, opt_view(*installed)) == installed_index_from(
                releases@,
                opt_view(*installed),
                i as int,
            ),
        decreases releases@.len() - i,
    {
        let is_match = match installed {
            Some(h) => match find_asset_index(&releases[i].assets, ".exe") {
                Some(a) => match &releases[i].assets[a].digest {
                    Some(d) => *d == *h,
                    None => false,
                },
                None => false,
            },
            None => false,
        };
        if is_match {
            return Some(i);
        }
        i += 1;
    }
    None
}

/// Plan the update: the ordered patch chain from the installed release to
/// the newest one, or a reinstall when no safe chain exists.
pub fn plan_update(releases: &Vec<Release>, installed: &Option<String>) -> (p: PatchPlan)
    ensures
        match plan_of(releases@, opt_view(*installed)) {
            Some(s) => p matches PatchPlan::Patches(steps) && steps@ == s,
            None => p is Reinstall,
        },
{
    let k = match find_installed_index(releases, installed) {
        Some(k) => k,
        None => {
            return PatchPlan::Reinstall;
        },
    };
    let mut steps: Vec<Asset> = Vec::new();
    let mut i: usize = 0;
    while i < k
        invariant
            k < releases@.len(),
            i <= k,
            installed_index(releases@, opt_view(*installed)) == Some(k as int),
            steps@.len() == i,
            forall|j: int|
                k - i <= j < k ==> first_match(
                    #[trigger] releases@[j].assets@,
                    spec_patch_suffix(),
                ) is Some,
            forall|t: int|
                0 <= t < i ==> steps@[t] == first_match(
                    #[trigger] releases@[k - 1 - t].assets@,
                    spec_patch_suffix(),
                )->Some_0,
        decreases k - i,
    {
        let ridx = k - 1 - i;
        match find_asset_index(&releases[ridx].assets, ".patch") {
            Some(a) => {
                steps.push(releases[ridx].assets[a].clone());
            },
            None => {
                assert(!chain_complete(releases@, k as int));
                return PatchPlan::Reinstall;
            },
        }
        i += 1;
    }
    proof {
        assert(chain_complete(releases@, k as int));
        assert(steps@ =~= chain_assets(releases@, k as int));
    }
    PatchPlan::Patches(steps)
}

/// For a catalog whose installed identity first matches position `k`, with
/// every newer release offering a patch asset, the plan is exactly those
/// patch assets, oldest first: entry `i` of the plan is the patch asset of
/// the release at position `k - 1 - i`; for `k == 0` the plan is empty.
pub proof fn lemma_plan_exact(releases: Seq<Release>, installed: Option<Seq<char>>, k: int)
    requires
        installed_index(releases, installed) == Some(k),
        chain_complete(releases, k),
    ensures
        0 <= k < releases.len(),
        plan_of(releases, installed) matches Some(s) && s.len() == k && forall|i: int|
            0 <= i < k ==> s[i] == first_match(
                #[trigger] releases[k - 1 - i].assets@,
                spec_patch_suffix(),
            )->Some_0,
        k == 0 ==> plan_of(releases, installed) == Some(Seq::<Asset>::empty()),
{
    lemma_installed_index_first(releases, installed, 0, k);
    if k == 0 {
        assert(chain_assets(releases, 0) =~= Seq::<Asset>::empty());
    }
}

/// When the installed identity matches no release, or some release newer
/// than the matched one lacks a patch asset, the plan is a reinstall —
/// never a partial chain.
pub proof fn lemma_plan_reinstall(releases: Seq<Release>, installed: Option<Seq<char>>)
    requires
        installed_index(releases, installed) is None || (installed_index(releases, installed)
            matches Some(k) && !chain_complete(releases, k)),
    ensures
        plan_of(releases, installed) is None,
{
}

} // verus!
