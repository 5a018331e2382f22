//! The update decision: installed version against remote release.

use crate::orchestrator::Status;
use crate::release::{Release, ReleaseView};
use crate::store::{version_of, VersionStore};
use crate::version::{semver_parse, Precedence, SemVer, Version};
use vstd::prelude::*;

verus! {

/// What the comparison of the installed version with the remote one found.
#[derive(Clone, Copy, Debug, PartialEq, Eq, Structural)]
pub enum DecisionOutcome {
    /// The remote release carries no version that can be compared.
    NoRemoteAvailable,
    /// The installed version is the remote one or a newer one.
    UpToDate,
    /// The installed version is older than the remote one.
    UpdateAvailable,
    /// Nothing is installed, and the remote release can be.
    NotInstalled,
}

/// The outcome for an installed and a remote version, each possibly missing.
pub open spec fn decision(installed: Option<SemVer>, remote: Option<SemVer>) -> DecisionOutcome {
    match remote {
        None => DecisionOutcome::NoRemoteAvailable,
        Some(r) => match installed {
            None => DecisionOutcome::NotInstalled,
            Some(i) => if i.precedes(r) {
                DecisionOutcome::UpdateAvailable
            } else {
                DecisionOutcome::UpToDate
            },
        },
    }
}

/// The outcome for two versions when the numbers alone decide.
pub open spec fn decision_by_number(installed: SemVer, remote: SemVer) -> DecisionOutcome {
    if installed.number_precedence(remote) == Precedence::Lower {
        DecisionOutcome::UpdateAvailable
    } else {
        DecisionOutcome::UpToDate
    }
}

/// The outcome for a marker and what the feed gave: no release counts as
/// no remote, and so does a release whose tag is no semantic version.
pub open spec fn feed_decision(marker: Option<Seq<char>>, feed: Option<ReleaseView>) -> DecisionOutcome {
    match feed {
        Some(release) => decision(version_of(marker), semver_parse(release.tag_name)),
        None => DecisionOutcome::NoRemoteAvailable,
    }
}

/// The model of an optional release.
pub open spec fn release_view_of(release: Option<Release>) -> Option<ReleaseView> {
    match release {
        Some(r) => Some(r@),
        None => None,
    }
}

/// The model of an optional version.
pub open spec fn view_of(version: Option<&Version>) -> Option<SemVer> {
    match version {
        Some(v) => Some(v@),
        None => None,
    }
}

impl DecisionOutcome {
    /// The state in which the update is offered to the user; `None` where
    /// there is nothing to offer.
    pub open spec fn offered_spec(self) -> Option<Status> {
        match self {
            DecisionOutcome::NotInstalled => Some(Status::NotInstalled),
            DecisionOutcome::UpdateAvailable => Some(Status::UpdateAvailable),
            _ => None,
        }
    }

    /// Returns the state in which the update is offered to the user, or
    /// `None` where the installed binary is to be launched directly.
    pub fn offered(self) -> (r: Option<Status>)
        ensures
            r == self.offered_spec(),
    {
        match self {
            DecisionOutcome::NotInstalled => Some(Status::NotInstalled),
            DecisionOutcome::UpdateAvailable => Some(Status::UpdateAvailable),
            _ => None,
        }
    }
}

/// Classifies an installed version against a remote one. Between versions
/// with the same pre-release identifiers the numbers alone decide, so equal
/// versions are up to date.
pub fn classify(installed: Option<&Version>, remote: Option<&Version>) -> (r: DecisionOutcome)
    ensures
        r == decision(view_of(installed), view_of(remote)),
        match (installed, remote) {
            (Some(i), Some(n)) => i@.pre == n@.pre ==> r == decision_by_number(i@, n@),
            _ => true,
        },
{
    match remote {
        None => DecisionOutcome::NoRemoteAvailable,
        Some(r) => match installed {
            None => DecisionOutcome::NotInstalled,
            Some(i) => if i.precedes(r) {
                DecisionOutcome::UpdateAvailable
            } else {
                DecisionOutcome::UpToDate
            },
        },
    }
}

/// Decides what to do about `remote` given the installed version. A release
/// whose tag is no semantic version counts as no remote at all.
pub fn decide(installed: Option<&Version>, remote: &Release) -> (r: DecisionOutcome)
    ensures
        r == decision(view_of(installed), semver_parse(remote@.tag_name)),
{
    match remote.parse_tag() {
        Ok(v) => classify(installed, Some(&v)),
        Err(_) => classify(installed, None),
    }
}

/// Checks the fetched release against the version store. Returns the
/// release and the state in which to offer it, or `None` where there is
/// nothing to offer: the feed gave no release, its tag is no semantic
/// version, or the installed version is not older.
pub fn check_for_updates(feed: Option<Release>, store: &VersionStore) -> (r: Option<
    (Release, Status),
>)
    ensures
        match r {
            Some(offer) => feed == Some(offer.0) && feed_decision(
                store@,
                release_view_of(feed),
            ).offered_spec() == Some(offer.1),
            None => feed_decision(store@, release_view_of(feed)).offered_spec() is None,
        },
{
    match feed {
        Some(release) => {
            let installed = store.load();
            match decide(installed.as_ref(), &release).offered() {
                Some(status) => Some((release, status)),
                None => None,
            }
        },
        None => None,
    }
}

/// With both versions at hand, an update is offered exactly when the
/// installed version is older than the remote one; otherwise the
/// installation is up to date.
pub proof fn lemma_update_iff_older(installed: SemVer, remote: SemVer)
    ensures
        decision(Some(installed), Some(remote)) == DecisionOutcome::UpdateAvailable
            <==> installed.precedes(remote),
        decision(Some(installed), Some(remote)) == DecisionOutcome::UpToDate
            <==> !installed.precedes(remote),
{
}

/// With nothing installed, a remote version is never an update: the
/// outcome is `NotInstalled`.
pub proof fn lemma_nothing_installed(remote: SemVer)
    ensures
        decision(None, Some(remote)) == DecisionOutcome::NotInstalled,
{
}

} // verus!
