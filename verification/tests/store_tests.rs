use launcher::release::Release;
use launcher::store::VersionStore;
use launcher::version::Version;

fn v(text: &str) -> Version {
    Version::parse(text).expect("a semantic version")
}

fn release(tag: &str) -> Release {
    Release { tag_name: tag.to_string(), published_at: String::new(), assets: Vec::new() }
}

#[test]
fn absent_store_loads_nothing() {
    let store = VersionStore::absent();
    assert_eq!(store.contents(), None);
    assert_eq!(store.load(), None);
}

#[test]
fn stored_text_loads_as_its_version() {
    let store = VersionStore::holding("1.4.2".to_string());
    assert_eq!(store.contents(), Some("1.4.2"));
    let loaded = store.load().expect("a version");
    assert_eq!(loaded.major(), 1);
    assert_eq!(loaded.minor(), 4);
    assert_eq!(loaded.patch(), 2);
    assert_eq!(loaded.as_str(), "1.4.2");
}

#[test]
fn malformed_marker_loads_as_nothing() {
    for text in ["", "garbage", "1.0", "1.0.0\n", " 1.0.0", "1.0.0 extra"] {
        let store = VersionStore::holding(text.to_string());
        assert_eq!(store.load(), None, "{:?}", text);
        assert_eq!(store.contents(), Some(text));
    }
}

#[test]
fn save_then_load_round_trips() {
    for text in ["0.0.0", "1.2.3", "2.0.0", "1.0.0-alpha.1", "1.0.0+build.7", "3.4.5-rc.1+exp.sha.5114f85",
        "18446744073709551615.18446744073709551615.18446744073709551615"]
    {
        let version = v(text);
        let mut store = VersionStore::absent();
        store.save(&version);
        assert_eq!(store.load(), Some(version.clone()));
        assert_eq!(store.contents(), Some(text));
    }
}

#[test]
fn save_overwrites_what_was_there() {
    let mut store = VersionStore::holding("1.0.0".to_string());
    store.save(&v("1.1.0"));
    assert_eq!(store.load(), Some(v("1.1.0")));
    let mut broken = VersionStore::holding("garbage".to_string());
    broken.save(&v("0.3.0"));
    assert_eq!(broken.load(), Some(v("0.3.0")));
    assert_eq!(broken.contents(), Some("0.3.0"));
}

#[test]
fn load_twice_gives_the_same() {
    let store = VersionStore::holding("2.7.1-beta".to_string());
    assert_eq!(store.load(), store.load());
    let absent = VersionStore::absent();
    assert_eq!(absent.load(), absent.load());
    let broken = VersionStore::holding("x".to_string());
    assert_eq!(broken.load(), broken.load());
}

#[test]
fn marker_holds_exactly_the_version_text() {
    let mut store = VersionStore::absent();
    store.save(&v("2.0.0"));
    assert_eq!(store.contents(), Some("2.0.0"));
}

#[test]
fn record_install_saves_the_tag() {
    let mut store = VersionStore::absent();
    assert!(store.record_install(&release("2.0.0")));
    assert_eq!(store.load(), Some(v("2.0.0")));
    assert_eq!(store.contents(), Some("2.0.0"));
}

#[test]
fn record_install_leaves_the_store_on_a_bad_tag() {
    let mut store = VersionStore::holding("1.0.0".to_string());
    assert!(!store.record_install(&release("latest")));
    assert_eq!(store.contents(), Some("1.0.0"));
    let mut absent = VersionStore::absent();
    assert!(!absent.record_install(&release("latest")));
    assert_eq!(absent.contents(), None);
}
