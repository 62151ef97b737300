//! Version Decision Engine.
//!
//! Compares the locally installed artifact against the catalog: for the
//! launcher by exact tag equality with the newest release, for the game by
//! content-digest equality with the newest release's full artifact.

use crate::model::{first_match, opt_view, spec_full_suffix, Release};
use vstd::prelude::*;

verus! {

/// Whether the installed artifact already is the latest release.
///
/// An empty catalog is "up to date" (nothing actionable).  For a
/// self-update the running build's version tag must equal the newest
/// release's tag.  For the game, the newest release's full artifact must
/// carry a digest equal to the installed identity; absence of either side
/// means "not up to date".
pub open spec fn up_to_date(
    releases: Seq<Release>,
    self_update: bool,
    installed: Option<Seq<char>>,
) -> bool {
    if releases.len() == 0 {
        true
    } else if self_update {
        installed == Some(releases[0].tag@)
    } else {
        match installed {
            Some(h) => match first_match(releases[0].assets@, spec_full_suffix()) {
                Some(a) => a.digest matches Some(d) && d@ == h,
                None => false,
            },
            None => false,
        }
    }
}

/// Decide whether an update is needed.
///
/// `installed` is the installed artifact's identity: the running version
/// tag when `self_update` is set, otherwise the game file's digest line
/// (absent on a first install).
pub fn decide(releases: &Vec<Release>, self_update: bool, installed: &Option<String>) -> (r: bool)
    ensures
        r == up_to_date(releases@, self_update, opt_view(*installed)),
{
    if releases.len() == 0 {
        return true;
    }
    if self_update {
        match installed {
            Some(v) => *v == releases[0].tag,
            None => false,
        }
    } else {
        match installed {
            Some(h) => match crate::model::find_asset_index(&releases[0].assets, ".exe") {
                Some(i) => match &releases[0].assets[i].digest {
                    Some(d) => *d == *h,
                    None => false,
                },
                None => false,
            },
            None => false,
        }
    }
}

/// The game is "up to date" iff the newest release's full artifact carries
/// a digest equal to the freshly computed identity of the installed file;
/// when either the installed identity or the asset digest is absent, the
/// answer is "not up to date".
pub proof fn lemma_game_decision(releases: Seq<Release>, installed: Option<Seq<char>>)
    requires
        releases.len() > 0,
    ensures
        up_to_date(releases, false, installed) <==> (installed matches Some(h) && first_match(
            releases[0].assets@,
            spec_full_suffix(),
        ) matches Some(a) && a.digest matches Some(d) && d@ == h),
        installed is None ==> !up_to_date(releases, false, installed),
        (first_match(releases[0].assets@, spec_full_suffix()) matches Some(a) && a.digest is None)
            ==> !up_to_date(releases, false, installed),
{
}

} // verus!
