//! Data model of the remote release catalog.
//!
//! A catalog is an ordered sequence of [`Release`]s, newest first; each
//! release carries downloadable [`Asset`]s.  Two asset kinds matter to the
//! update logic, told apart by filename suffix: the full executable artifact
//! and the incremental binary patch.

use vstd::prelude::*;
use vstd::string::StrSliceExecFns;

verus! {

/// One downloadable file attached to a release.
pub struct Asset {
    pub id: u64,
    pub name: String,
    pub download_url: String,
    pub size: u64,
    /// Content hash of the file, in the canonical form `"<algorithm>:<hex>"`,
    /// when the catalog provides one.
    pub digest: Option<String>,
}

/// One published version in the remote catalog.
///
/// The catalog hands releases out in descending recency order: index 0 is
/// the newest release.  The planner relies on that ordering.
pub struct Release {
    pub id: u64,
    pub body: String,
    pub tag: String,
    pub assets: Vec<Asset>,
}

/// `s` ends with `suffix`.
pub open spec fn ends_with(s: Seq<char>, suffix: Seq<char>) -> bool {
    &&& suffix.len() <= s.len()
    &&& s.subrange(s.len() - suffix.len(), s.len() as int) == suffix
}

/// The view of an optional string: the character sequence, if present.
pub open spec fn opt_view(o: Option<String>) -> Option<Seq<char>> {
    match o {
        Some(s) => Some(s@),
        None => None,
    }
}

/// The first asset at or after position `i` whose name ends with `suffix`.
pub open spec fn first_match_from(assets: Seq<Asset>, suffix: Seq<char>, i: int) -> Option<Asset>
    decreases assets.len() - i,
{
    if i < 0 || i >= assets.len() {
        None
    } else if ends_with(assets[i].name@, suffix) {
        Some(assets[i])
    } else {
        first_match_from(assets, suffix, i + 1)
    }
}

/// The first asset whose name ends with `suffix`, if any.
pub open spec fn first_match(assets: Seq<Asset>, suffix: Seq<char>) -> Option<Asset> {
    first_match_from(assets, suffix, 0)
}

/// Filename suffix that marks a release's full executable artifact.
pub open spec fn spec_full_suffix() -> Seq<char> {
    ".exe"@
}

/// Filename suffix that marks an incremental patch asset.
pub open spec fn spec_patch_suffix() -> Seq<char> {
    ".patch"@
}

/// Whether `s` ends with `suffix`, decided character by character.
pub fn str_ends_with(s: &str, suffix: &str) -> (r: bool)
    ensures
        r == ends_with(s@, suffix@),
{
    let n = s.unicode_len();
    let m = suffix.unicode_len();
    if m > n {
        return false;
    }
    let mut i: usize = 0;
    while i < m
        invariant
            m <= n,
            n == s@.len(),
            m == suffix@.len(),
            i <= m,
            forall|j: int| 0 <= j < i ==> s@[n - m + j] == suffix@[j],
        decreases m - i,
    {
        if s.get_char(n - m + i) != suffix.get_char(i) {
            assert(!ends_with(s@, suffix@)) by {
                if ends_with(s@, suffix@) {
                    assert(s@.subrange(n - m, n as int)[i as int] == suffix@[i as int]);
                }
            };
            return false;
        }
        i += 1;
    }
    assert(s@.subrange(n - m, n as int) =~= suffix@);
    true
}

/// The position of the first asset whose name ends with `suffix`.
pub fn find_asset_index(assets: &Vec<Asset>, suffix: &str) -> (r: Option<usize>)
    ensures
        match r {
            Some(i) => i < assets@.len() && first_match(assets@, suffix@) == Some(assets@[i as int]),
            None => first_match(assets@, suffix@) is None,
        },
{
    let mut i: usize = 0;
    while i < assets.len()
        invariant
            i <= assets@.len(),
            first_match(assets@, suffix@) == first_match_from(assets@, suffix@, i as int),
        decreases assets@.len() - i,
    {
        if str_ends_with(assets[i].name.as_str(), suffix) {
            return Some(i);
        }
        i += 1;
    }
    None
}

impl Clone for Asset {
    /// A clone keeps every field of the asset.
    fn clone(&self) -> (r: Self)
        ensures
            r == *self,
    {
        Asset {
            id: self.id,
            name: self.name.clone(),
            download_url: self.download_url.clone(),
            size: self.size,
            digest: match &self.digest {
                Some(d) => Some(d.clone()),
                None => None,
            },
        }
    }
}

} // verus!
