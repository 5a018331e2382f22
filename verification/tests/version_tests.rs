use launcher::version::{compare_numbers, InvalidVersion, Precedence, Version};

fn v(text: &str) -> Version {
    Version::parse(text).expect("a semantic version")
}

#[test]
fn parse_reads_the_three_numbers() {
    let version = v("1.2.3");
    assert_eq!(version.major(), 1);
    assert_eq!(version.minor(), 2);
    assert_eq!(version.patch(), 3);
    assert_eq!(version.pre(), "");
    assert_eq!(version.build(), "");
    assert_eq!(version.as_str(), "1.2.3");
}

#[test]
fn parse_reads_pre_release_and_build() {
    let version = v("10.20.30-alpha.1+build.5");
    assert_eq!(version.major(), 10);
    assert_eq!(version.minor(), 20);
    assert_eq!(version.patch(), 30);
    assert_eq!(version.pre(), "alpha.1");
    assert_eq!(version.build(), "build.5");
    assert_eq!(version.as_str(), "10.20.30-alpha.1+build.5");
}

#[test]
fn parse_takes_the_largest_numbers() {
    let version = v("18446744073709551615.0.0");
    assert_eq!(version.major(), u64::MAX);
}

#[test]
fn parse_rejects_what_is_no_version() {
    for text in ["", "latest", "1.0", "1.0.01", "1.0.unknown", "1.0.0-", "1.0.0+", "v1.0.0",
        "1.0.0-alpha_123", "23456789999999999999.0.0", " 1.0.0", "1.0.0 "]
    {
        assert_eq!(Version::parse(text), Err(InvalidVersion), "{}", text);
    }
}

#[test]
fn numbers_compare_numerically() {
    assert_eq!(v("1.5.0").precedence(&v("1.19.0")), Precedence::Lower);
    assert_eq!(v("1.19.0").precedence(&v("1.5.0")), Precedence::Higher);
    assert_eq!(v("2.0.0").precedence(&v("1.99.99")), Precedence::Higher);
    assert_eq!(v("1.2.3").precedence(&v("1.2.4")), Precedence::Lower);
    assert_eq!(v("1.2.3").precedence(&v("1.2.3")), Precedence::Same);
}

#[test]
fn pre_release_is_older_than_release() {
    assert_eq!(v("1.0.0-alpha.1").precedence(&v("1.0.0")), Precedence::Lower);
    assert_eq!(v("1.0.0").precedence(&v("1.0.0-alpha.1")), Precedence::Higher);
    assert!(v("1.0.0-rc.1").precedes(&v("1.0.0")));
    assert!(!v("1.0.0").precedes(&v("1.0.0-rc.1")));
}

#[test]
fn pre_release_chain_is_ordered() {
    let chain = ["1.0.0-alpha", "1.0.0-alpha.1", "1.0.0-alpha.beta", "1.0.0-beta",
        "1.0.0-beta.2", "1.0.0-beta.11", "1.0.0-rc.1", "1.0.0"];
    for i in 0..chain.len() {
        for j in 0..chain.len() {
            let expected = if i < j {
                Precedence::Lower
            } else if i == j {
                Precedence::Same
            } else {
                Precedence::Higher
            };
            assert_eq!(v(chain[i]).precedence(&v(chain[j])), expected, "{} {}", chain[i], chain[j]);
        }
    }
}

#[test]
fn pre_release_numbers_beat_text_only_within_a_field() {
    assert_eq!(v("1.0.0-pre.8").precedence(&v("1.0.0-pre.12")), Precedence::Lower);
    assert_eq!(v("1.0.0-pre12").precedence(&v("1.0.0-pre8")), Precedence::Lower);
    assert_eq!(v("1.0.0-pre.1").precedence(&v("1.0.0-pre.x")), Precedence::Lower);
}

#[test]
fn pre_release_only_breaks_ties() {
    assert_eq!(v("1.0.1-alpha").precedence(&v("1.0.0")), Precedence::Higher);
    assert_eq!(v("0.9.0").precedence(&v("1.0.0-alpha")), Precedence::Lower);
}

#[test]
fn build_identifiers_play_no_part() {
    assert_eq!(v("1.20.0+c144a98").precedence(&v("1.20.0+bc17664")), Precedence::Same);
    assert_eq!(v("1.20.0").precedence(&v("1.20.0+bc17664")), Precedence::Same);
    assert!(!v("1.0.0+a").precedes(&v("1.0.0+b")));
    assert!(!v("1.0.0+b").precedes(&v("1.0.0+a")));
}

#[test]
fn precedes_is_strict() {
    assert!(v("1.0.0").precedes(&v("1.0.1")));
    assert!(!v("1.0.1").precedes(&v("1.0.0")));
    assert!(!v("1.0.0").precedes(&v("1.0.0")));
}

#[test]
fn compare_numbers_ranks() {
    assert_eq!(compare_numbers(1, 2), Precedence::Lower);
    assert_eq!(compare_numbers(2, 2), Precedence::Same);
    assert_eq!(compare_numbers(3, 2), Precedence::Higher);
    assert_eq!(compare_numbers(0, u64::MAX), Precedence::Lower);
}

#[test]
fn or_lets_the_first_difference_decide() {
    assert_eq!(Precedence::Same.or(Precedence::Lower), Precedence::Lower);
    assert_eq!(Precedence::Same.or(Precedence::Same), Precedence::Same);
    assert_eq!(Precedence::Same.or(Precedence::Higher), Precedence::Higher);
    assert_eq!(Precedence::Lower.or(Precedence::Higher), Precedence::Lower);
    assert_eq!(Precedence::Higher.or(Precedence::Lower), Precedence::Higher);
    assert_eq!(Precedence::Lower.or(Precedence::Same), Precedence::Lower);
}

#[test]
fn clone_keeps_text_and_fields() {
    let version = v("3.1.4-rc.2+exp");
    let copy = version.clone();
    assert_eq!(copy, version);
    assert_eq!(copy.as_str(), "3.1.4-rc.2+exp");
    assert_eq!(copy.pre(), "rc.2");
}
