use launcher::decision::{check_for_updates, classify, decide, DecisionOutcome};
use launcher::orchestrator::Status;
use launcher::release::{Asset, Release};
use launcher::store::VersionStore;
use launcher::version::Version;

fn v(text: &str) -> Version {
    Version::parse(text).expect("a semantic version")
}

fn release(tag: &str) -> Release {
    Release {
        tag_name: tag.to_string(),
        published_at: "2024-05-01T09:30:00Z".to_string(),
        assets: vec![Asset {
            name: "westward-linux-1.0".to_string(),
            browser_download_url: "https://example.invalid/westward-linux-1.0".to_string(),
        }],
    }
}

#[test]
fn older_installed_version_gets_an_update() {
    assert_eq!(decide(Some(&v("1.0.0")), &release("1.0.1")), DecisionOutcome::UpdateAvailable);
    assert_eq!(decide(Some(&v("1.9.9")), &release("2.0.0")), DecisionOutcome::UpdateAvailable);
    assert_eq!(decide(Some(&v("1.5.0")), &release("1.19.0")), DecisionOutcome::UpdateAvailable);
    assert_eq!(decide(Some(&v("2.0.0-rc.1")), &release("2.0.0")), DecisionOutcome::UpdateAvailable);
}

#[test]
fn equal_versions_are_up_to_date() {
    assert_eq!(decide(Some(&v("1.0.0")), &release("1.0.0")), DecisionOutcome::UpToDate);
    assert_eq!(decide(Some(&v("1.0.0-beta.2")), &release("1.0.0-beta.2")), DecisionOutcome::UpToDate);
}

#[test]
fn newer_installed_version_is_up_to_date() {
    assert_eq!(decide(Some(&v("1.5.0")), &release("1.4.0")), DecisionOutcome::UpToDate);
    assert_eq!(decide(Some(&v("2.0.0")), &release("2.0.0-rc.1")), DecisionOutcome::UpToDate);
    assert_eq!(decide(Some(&v("10.0.0")), &release("9.99.99")), DecisionOutcome::UpToDate);
}

#[test]
fn build_identifiers_alone_are_no_update() {
    assert_eq!(decide(Some(&v("1.0.0+a")), &release("1.0.0+b")), DecisionOutcome::UpToDate);
    assert_eq!(decide(Some(&v("1.0.0+b")), &release("1.0.0+a")), DecisionOutcome::UpToDate);
}

#[test]
fn nothing_installed_is_not_installed() {
    assert_eq!(decide(None, &release("2.0.0")), DecisionOutcome::NotInstalled);
    assert_eq!(decide(None, &release("0.0.1-alpha")), DecisionOutcome::NotInstalled);
}

#[test]
fn unparseable_tag_is_no_remote() {
    assert_eq!(decide(Some(&v("1.0.0")), &release("latest")), DecisionOutcome::NoRemoteAvailable);
    assert_eq!(decide(None, &release("latest")), DecisionOutcome::NoRemoteAvailable);
    assert_eq!(decide(None, &release("")), DecisionOutcome::NoRemoteAvailable);
    assert_eq!(decide(Some(&v("1.0.0")), &release("v2.0.0")), DecisionOutcome::NoRemoteAvailable);
}

#[test]
fn classify_covers_the_four_outcomes() {
    let old = v("1.0.0");
    let new = v("1.1.0");
    assert_eq!(classify(Some(&old), Some(&new)), DecisionOutcome::UpdateAvailable);
    assert_eq!(classify(Some(&new), Some(&old)), DecisionOutcome::UpToDate);
    assert_eq!(classify(Some(&old), Some(&old)), DecisionOutcome::UpToDate);
    assert_eq!(classify(None, Some(&new)), DecisionOutcome::NotInstalled);
    assert_eq!(classify(Some(&old), None), DecisionOutcome::NoRemoteAvailable);
    assert_eq!(classify(None, None), DecisionOutcome::NoRemoteAvailable);
}

#[test]
fn decide_agrees_with_precedes_on_a_grid() {
    let texts = ["0.0.1", "0.1.0", "1.0.0-alpha", "1.0.0-alpha.1", "1.0.0", "1.0.0+x", "1.0.1",
        "1.10.0", "2.0.0"];
    for a in texts {
        for b in texts {
            let installed = v(a);
            let expected = if installed.precedes(&v(b)) {
                DecisionOutcome::UpdateAvailable
            } else {
                DecisionOutcome::UpToDate
            };
            assert_eq!(decide(Some(&installed), &release(b)), expected, "{} {}", a, b);
        }
    }
}

#[test]
fn offered_states() {
    assert_eq!(DecisionOutcome::NotInstalled.offered(), Some(Status::NotInstalled));
    assert_eq!(DecisionOutcome::UpdateAvailable.offered(), Some(Status::UpdateAvailable));
    assert_eq!(DecisionOutcome::UpToDate.offered(), None);
    assert_eq!(DecisionOutcome::NoRemoteAvailable.offered(), None);
}

#[test]
fn check_offers_an_install_when_nothing_is_stored() {
    let offer = check_for_updates(Some(release("2.0.0")), &VersionStore::absent());
    assert_eq!(offer, Some((release("2.0.0"), Status::NotInstalled)));
}

#[test]
fn check_offers_an_update_over_an_older_version() {
    let store = VersionStore::holding("1.0.0".to_string());
    let offer = check_for_updates(Some(release("1.2.0")), &store);
    assert_eq!(offer, Some((release("1.2.0"), Status::UpdateAvailable)));
}

#[test]
fn check_offers_nothing_when_up_to_date() {
    let store = VersionStore::holding("1.0.0".to_string());
    assert_eq!(check_for_updates(Some(release("1.0.0")), &store), None);
    let newer = VersionStore::holding("1.5.0".to_string());
    assert_eq!(check_for_updates(Some(release("1.4.0")), &newer), None);
}

#[test]
fn check_offers_nothing_without_a_release() {
    assert_eq!(check_for_updates(None, &VersionStore::absent()), None);
    assert_eq!(check_for_updates(None, &VersionStore::holding("1.0.0".to_string())), None);
}

#[test]
fn check_offers_nothing_for_an_unparseable_tag() {
    assert_eq!(check_for_updates(Some(release("latest")), &VersionStore::absent()), None);
    let store = VersionStore::holding("1.0.0".to_string());
    assert_eq!(check_for_updates(Some(release("latest")), &store), None);
}

#[test]
fn check_treats_a_malformed_marker_as_not_installed() {
    let store = VersionStore::holding("not a version".to_string());
    let offer = check_for_updates(Some(release("1.0.0")), &store);
    assert_eq!(offer, Some((release("1.0.0"), Status::NotInstalled)));
}

#[test]
fn check_does_not_look_at_the_assets() {
    let mut bare = release("2.0.0");
    bare.assets.clear();
    let offer = check_for_updates(Some(bare), &VersionStore::absent());
    assert_eq!(offer.map(|o| o.1), Some(Status::NotInstalled));
}
