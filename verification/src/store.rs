//! The version store: the marker of the installed version.
//!
//! A [`VersionStore`] is the image in memory of the persisted marker. The
//! embedding program fills it with what it read from the backing storage and
//! writes its contents back after a change; the rules of reading and writing
//! live here.

use crate::release::Release;
use crate::version::{semver_parse, SemVer, Version};
use vstd::prelude::*;

verus! {

/// The persisted marker: absent, or the text that was last written.
#[derive(Debug, PartialEq, Eq)]
pub struct VersionStore {
    contents: Option<String>,
}

impl View for VersionStore {
    type V = Option<Seq<char>>;

    closed spec fn view(&self) -> Option<Seq<char>> {
        match self.contents {
            Some(text) => Some(text@),
            None => None,
        }
    }
}

/// The version that a marker stands for: none where the marker is absent or
/// its text is no semantic version.
pub open spec fn version_of(marker: Option<Seq<char>>) -> Option<SemVer> {
    match marker {
        Some(text) => semver_parse(text),
        None => None,
    }
}

/// The marker after `version` was saved over it.
pub open spec fn saved(marker: Option<Seq<char>>, version: Version) -> Option<Seq<char>> {
    Some(version.text())
}

/// `r` is what loading reads from `marker`.
pub open spec fn reads_as(marker: Option<Seq<char>>, r: Option<Version>) -> bool {
    match r {
        Some(v) => v.wf() && marker == Some(v.text()) && version_of(marker) == Some(v@),
        None => version_of(marker) is None,
    }
}

impl VersionStore {
    /// The store before anything was ever written.
    pub fn absent() -> (store: VersionStore)
        ensures
            store@ is None,
    {
        VersionStore { contents: None }
    }

    /// The store of a marker that holds `text`.
    pub fn holding(text: String) -> (store: VersionStore)
        ensures
            store@ == Some(text@),
    {
        VersionStore { contents: Some(text) }
    }

    /// Returns the text of the marker, or `None` where there is no marker.
    pub fn contents(&self) -> (r: Option<&str>)
        ensures
            match r {
                Some(text) => self@ == Some(text@),
                None => self@ is None,
            },
    {
        match &self.contents {
            Some(text) => Some(text.as_str()),
            None => None,
        }
    }

    /// Reads the installed version. A missing marker and a marker that is no
    /// semantic version both read as `None`.
    pub fn load(&self) -> (r: Option<Version>)
        ensures
            reads_as(self@, r),
    {
        match &self.contents {
            Some(text) => match Version::parse(text.as_str()) {
                Ok(v) => Some(v),
                Err(_) => None,
            },
            None => None,
        }
    }

    /// Overwrites the marker with `version`, creating it where it is absent.
    /// The marker then holds the text of the version, which reads as that
    /// version again.
    pub fn save(&mut self, version: &Version)
        ensures
            final(self)@ == saved(old(self)@, *version),
            version_of(final(self)@) == Some(version@),
    {
        proof {
            use_type_invariant(version);
        }
        self.contents = Some(version.as_str().to_owned());
    }

    /// Records `release` as installed: saves the version of its tag. A tag
    /// that is no semantic version leaves the store as it is.
    pub fn record_install(&mut self, release: &Release) -> (saved: bool)
        ensures
            saved == semver_parse(release@.tag_name) is Some,
            final(self)@ == if saved {
                Some(release@.tag_name)
            } else {
                old(self)@
            },
    {
        match release.parse_tag() {
            Ok(v) => {
                self.save(&v);
                true
            },
            Err(_) => false,
        }
    }
}

/// Saving a version and then loading gives that version back, whatever the
/// marker held before.
pub proof fn lemma_save_then_load(marker: Option<Seq<char>>, version: Version, loaded: Option<Version>)
    requires
        version.wf(),
        reads_as(saved(marker, version), loaded),
    ensures
        loaded matches Some(v) && v@ == version@ && v.text() == version.text(),
{
}

/// Loading is a function of the marker alone: two loads with no save in
/// between read the same version.
pub proof fn lemma_load_repeatable(
    marker: Option<Seq<char>>,
    first: Option<Version>,
    second: Option<Version>,
)
    requires
        reads_as(marker, first),
        reads_as(marker, second),
    ensures
        first is Some <==> second is Some,
        first matches Some(a) ==> second matches Some(b) && a@ == b@ && a.text() == b.text(),
{
}

} // verus!
