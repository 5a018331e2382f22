//! Releases of the remote feed, their assets, and the choice of the asset
//! that fits a platform.

use crate::platform::Platform;
use crate::version::{semver_parse, InvalidVersion, Version};
use vstd::prelude::*;

verus! {

/// One downloadable artifact of a release.
#[derive(Debug, PartialEq, Eq)]
pub struct Asset {
    pub name: String,
    pub browser_download_url: String,
}

/// An asset as mathematics.
pub struct AssetView {
    pub name: Seq<char>,
    pub browser_download_url: Seq<char>,
}

impl View for Asset {
    type V = AssetView;

    open spec fn view(&self) -> AssetView {
        AssetView { name: self.name@, browser_download_url: self.browser_download_url@ }
    }
}

impl Clone for Asset {
    fn clone(&self) -> (r: Self)
        ensures
            r == *self,
    {
        Asset {
            name: self.name.clone(),
            browser_download_url: self.browser_download_url.clone(),
        }
    }
}

impl AssetView {
    /// The asset's name begins with the prefix of `platform`.
    pub open spec fn fits(self, platform: Platform) -> bool {
        platform.asset_prefix_text().is_prefix_of(self.name)
    }
}

/// A published release as the feed describes it.
#[derive(Debug, PartialEq, Eq)]
pub struct Release {
    pub tag_name: String,
    pub published_at: String,
    pub assets: Vec<Asset>,
}

/// A release as mathematics.
pub struct ReleaseView {
    pub tag_name: Seq<char>,
    pub published_at: Seq<char>,
    pub assets: Seq<AssetView>,
}

impl View for Release {
    type V = ReleaseView;

    open spec fn view(&self) -> ReleaseView {
        ReleaseView {
            tag_name: self.tag_name@,
            published_at: self.published_at@,
            assets: self.assets@.map_values(|a: Asset| a@),
        }
    }
}

impl ReleaseView {
    /// The asset at `i` fits `platform` and none before it does.
    pub open spec fn first_fit_at(self, platform: Platform, i: int) -> bool {
        &&& 0 <= i < self.assets.len()
        &&& self.assets[i].fits(platform)
        &&& forall|j: int| 0 <= j < i ==> !(#[trigger] self.assets[j]).fits(platform)
    }

    /// The first asset in feed order that fits `platform`, if any does.
    pub open spec fn asset_for(self, platform: Platform) -> Option<AssetView> {
        if exists|i: int| self.first_fit_at(platform, i) {
            Some(self.assets[choose|i: int| self.first_fit_at(platform, i)])
        } else {
            None
        }
    }
}

impl Release {
    /// Parses the release tag as a semantic version.
    pub fn parse_tag(&self) -> (r: Result<Version, InvalidVersion>)
        ensures
            match r {
                Ok(v) => v.wf() && v.text() == self@.tag_name,
                Err(_) => semver_parse(self@.tag_name) is None,
            },
    {
        Version::parse(self.tag_name.as_str())
    }
}

/// Tells whether `text` begins with `prefix`.
pub fn starts_with(text: &str, prefix: &str) -> (r: bool)
    ensures
        r == prefix@.is_prefix_of(text@),
{
    let n: usize = prefix.unicode_len();
    if text.unicode_len() < n {
        return false;
    }
    let mut i: usize = 0;
    while i < n
        invariant
            i <= n,
            n == prefix@.len(),
            n <= text@.len(),
            forall|j: int| 0 <= j < i ==> text@[j] == prefix@[j],
        decreases n - i,
    {
        if text.get_char(i) != prefix.get_char(i) {
            assert(text@.subrange(0, n as int)[i as int] != prefix@[i as int]);
            return false;
        }
        i += 1;
    }
    assert(prefix@ =~= text@.subrange(0, n as int));
    true
}

/// Picks the asset to install on `platform`: the first in feed order whose
/// name begins with the platform's prefix. `None` when no asset does.
pub fn get_latest_version(release: &Release, platform: Platform) -> (r: Option<Asset>)
    ensures
        match r {
            Some(asset) => release@.asset_for(platform) == Some(asset@),
            None => release@.asset_for(platform) is None,
        },
{
    let prefix = platform.asset_prefix();
    let mut i: usize = 0;
    while i < release.assets.len()
        invariant
            i <= release.assets.len(),
            prefix@ == platform.asset_prefix_text(),
            forall|j: int| 0 <= j < i ==> !(#[trigger] release@.assets[j]).fits(platform),
        decreases release.assets.len() - i,
    {
        let asset = &release.assets[i];
        assert(release@.assets[i as int] == asset@);
        if starts_with(asset.name.as_str(), prefix) {
            proof {
                lemma_first_fit_is_chosen(release@, platform, i as int);
            }
            return Some(asset.clone());
        }
        i += 1;
    }
    None
}

/// The asset that is first in feed order among those that fit is the one
/// chosen.
pub proof fn lemma_first_fit_is_chosen(release: ReleaseView, platform: Platform, i: int)
    requires
        release.first_fit_at(platform, i),
    ensures
        release.asset_for(platform) == Some(release.assets[i]),
{
    let k: int = choose|k: int| release.first_fit_at(platform, k);
    assert(release.first_fit_at(platform, k));
    if k < i {
        assert(!release.assets[k].fits(platform));
    } else if i < k {
        assert(!release.assets[i].fits(platform));
    }
}

/// Where some asset fits, one of them is the first.
pub proof fn lemma_some_fit_has_first(release: ReleaseView, platform: Platform, i: int)
    requires
        0 <= i < release.assets.len(),
        release.assets[i].fits(platform),
    ensures
        exists|k: int| 0 <= k <= i && release.first_fit_at(platform, k),
    decreases i,
{
    if exists|j: int| 0 <= j < i && release.assets[j].fits(platform) {
        let j: int = choose|j: int| 0 <= j < i && release.assets[j].fits(platform);
        lemma_some_fit_has_first(release, platform, j);
    } else {
        assert(release.first_fit_at(platform, i));
    }
}

/// Asset selection goes by feed order alone: an asset is chosen exactly
/// when some asset fits, and it is then the one at the least index among
/// those that fit.
pub proof fn lemma_selection_by_feed_order(release: ReleaseView, platform: Platform)
    ensures
        release.asset_for(platform) is None <==> forall|i: int|
            0 <= i < release.assets.len() ==> !(#[trigger] release.assets[i]).fits(platform),
        release.asset_for(platform) matches Some(asset) ==> exists|i: int|
            release.first_fit_at(platform, i) && release.assets[i] == asset,
{
    if exists|i: int| 0 <= i < release.assets.len() && release.assets[i].fits(platform) {
        let i: int = choose|i: int| 0 <= i < release.assets.len() && release.assets[i].fits(platform);
        lemma_some_fit_has_first(release, platform, i);
    }
    if release.asset_for(platform) is Some {
        let k: int = choose|k: int| release.first_fit_at(platform, k);
        assert(release.first_fit_at(platform, k) && release.assets[k] == release.asset_for(
            platform,
        )->0);
    }
}

} // verus!
