use ua_detect::engine::classify;
use ua_detect::protocol::Validity;

#[test]
fn safari_is_invalid() {
    assert_eq!(classify("Safari"), Validity::Invalid);
}

#[test]
fn firefox_is_valid() {
    assert_eq!(classify("Firefox"), Validity::Valid);
}

#[test]
fn other_families_are_unknown() {
    assert_eq!(classify(""), Validity::Unknown);
    assert_eq!(classify("Chrome"), Validity::Unknown);
    assert_eq!(classify("Opera"), Validity::Unknown);
    assert_eq!(classify("Other"), Validity::Unknown);
    assert_eq!(classify("Mobile Safari"), Validity::Unknown);
}

#[test]
fn comparison_is_case_sensitive() {
    assert_eq!(classify("safari"), Validity::Unknown);
    assert_eq!(classify("FIREFOX"), Validity::Unknown);
    assert_eq!(classify("Safari "), Validity::Unknown);
    assert_eq!(classify("Firefo"), Validity::Unknown);
}

#[test]
fn classify_is_repeatable() {
    for name in ["Safari", "Firefox", "Chrome", ""] {
        assert_eq!(classify(name), classify(name));
    }
}
