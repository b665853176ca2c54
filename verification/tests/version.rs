use std::cmp::Ordering;
use xpm::package::{try_vercmp, vercmp, Version};

#[test]
fn test_version_comparison() {
    let v1 = Version::new("1.0.0-1");
    let v2 = Version::new("1.0.1-1");
    let v3 = Version::new("1:0.5.0-1");
    let v4 = Version::new("2.0.0-1");

    assert!(v1 < v2);
    assert!(v2 < v4);
    assert!(v3 > v4); // epoch wins
    assert!(v1 == Version::new("1.0.0-1"));
}

#[test]
fn test_version_parsing() {
    let v = Version::new("1:2.3.4-5");
    assert_eq!(v.epoch, Some(1));
    assert_eq!(v.pkgver, "2.3.4");
    assert_eq!(v.pkgrel, "5");
}

#[test]
fn version_without_epoch_or_release() {
    let v = Version::new("2.3.4");
    assert_eq!(v.full, "2.3.4");
    assert_eq!(v.epoch, None);
    assert_eq!(v.pkgver, "2.3.4");
    assert_eq!(v.pkgrel, "");
}

#[test]
fn version_release_follows_the_last_hyphen() {
    let v = Version::new("1.0-beta-3");
    assert_eq!(v.pkgver, "1.0-beta");
    assert_eq!(v.pkgrel, "3");
}

#[test]
fn version_epoch_ends_at_the_first_colon() {
    let v = Version::new("2:1:0-1");
    assert_eq!(v.epoch, Some(2));
    assert_eq!(v.pkgver, "1:0");
    assert_eq!(v.pkgrel, "1");
}

#[test]
fn version_epoch_that_is_no_number_is_dropped() {
    let v = Version::new("abc:1.0-1");
    assert_eq!(v.epoch, None);
    assert_eq!(v.pkgver, "1.0");
    let w = Version::new(":1.0-1");
    assert_eq!(w.epoch, None);
    assert_eq!(w.pkgver, "1.0");
    let x = Version::new("-1:1.0");
    assert_eq!(x.epoch, None);
}

#[test]
fn version_epoch_accepts_a_plus_sign_and_leading_zeros() {
    assert_eq!(Version::new("+7:1.0").epoch, Some(7));
    assert_eq!(Version::new("007:1.0").epoch, Some(7));
    assert_eq!(Version::new("+:1.0").epoch, None);
    assert_eq!(Version::new("++7:1.0").epoch, None);
}

#[test]
fn version_epoch_at_the_limit_of_u32() {
    assert_eq!(Version::new("4294967295:1").epoch, Some(4294967295));
    assert_eq!(Version::new("4294967296:1").epoch, None);
    assert_eq!(Version::new("99999999999999999999:1").epoch, None);
}

#[test]
fn version_epoch_agrees_with_std_parse() {
    for text in ["", "0", "1", "+1", "-1", "12a", "4294967295", "4294967296", "+", "  1", "1_0"] {
        let full = format!("{}:x", text);
        assert_eq!(Version::new(&full).epoch, text.parse::<u32>().ok(), "epoch {:?}", text);
    }
}

#[test]
fn version_to_string_is_the_full_text() {
    assert_eq!(Version::new("1:2.3.4-5").to_string(), "1:2.3.4-5");
}

#[test]
fn version_equality_is_by_every_field() {
    assert!(Version::new("1.0") != Version::new("1_0"));
    assert_eq!(Version::new("1.0").partial_cmp(&Version::new("1_0")), Some(Ordering::Equal));
}

#[test]
fn vercmp_orders_numbers_by_length_then_text() {
    assert_eq!(vercmp("10", "9"), Ordering::Greater);
    assert_eq!(vercmp("9", "10"), Ordering::Less);
    assert_eq!(vercmp("12", "13"), Ordering::Less);
    assert_eq!(vercmp("01", "1"), Ordering::Greater);
    assert_eq!(vercmp("1.2.3", "1.2.3"), Ordering::Equal);
}

#[test]
fn vercmp_numbers_beat_letters() {
    assert_eq!(vercmp("1", "a"), Ordering::Greater);
    assert_eq!(vercmp("a", "1"), Ordering::Less);
    assert_eq!(vercmp("1.0a", "1.0.1"), Ordering::Less);
}

#[test]
fn vercmp_orders_letters_as_text() {
    assert_eq!(vercmp("alpha", "beta"), Ordering::Less);
    assert_eq!(vercmp("rc", "r"), Ordering::Greater);
    assert_eq!(vercmp("B", "a"), Ordering::Less);
}

#[test]
fn vercmp_skips_separators_and_the_shorter_is_less() {
    assert_eq!(vercmp("1..2", "1-2"), Ordering::Equal);
    assert_eq!(vercmp("1.2", "1.2.0"), Ordering::Less);
    assert_eq!(vercmp("1.2.0", "1.2"), Ordering::Greater);
    assert_eq!(vercmp("", ""), Ordering::Equal);
    assert_eq!(vercmp("", "..."), Ordering::Equal);
    assert_eq!(vercmp("", "1"), Ordering::Less);
}

#[test]
fn vercmp_reads_letters_beyond_ascii() {
    assert_eq!(vercmp("é", "z"), Ordering::Greater);
    assert_eq!(vercmp("1é", "1é"), Ordering::Equal);
}

#[test]
fn try_vercmp_is_undefined_on_two_odd_numerals() {
    assert_eq!(try_vercmp("²", "²"), None);
    assert_eq!(try_vercmp("1.²", "1.³"), None);
    assert_eq!(try_vercmp("a²", "b²"), Some(Ordering::Less));
    assert_eq!(try_vercmp("²", "a"), Some(Ordering::Less));
    assert_eq!(try_vercmp("1.0", "1.1"), Some(Ordering::Less));
}

#[test]
fn version_order_is_epoch_then_version_then_release() {
    let a = Version::new("1:1.0-1");
    let b = Version::new("2:0.1-1");
    assert_eq!(a.try_cmp(&b), Some(Ordering::Less));
    assert_eq!(a.cmp(&b), Ordering::Less);
    assert!(Version::new("1.0-2") > Version::new("1.0-1"));
    assert!(Version::new("1.1-1") > Version::new("1.0-9"));
    assert!(Version::new("0:1.0") > Version::new("1.0"));
    assert_eq!(Version::new("1:²").partial_cmp(&Version::new("2:²")), Some(Ordering::Less));
    assert_eq!(Version::new("²").partial_cmp(&Version::new("²")), None);
}
