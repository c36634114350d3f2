use ua_detect::protocol::Validity;

#[test]
fn wire_values_are_fixed() {
    assert_eq!(i32::from(Validity::Unknown), 0);
    assert_eq!(i32::from(Validity::Valid), 1);
    assert_eq!(i32::from(Validity::Invalid), 2);
    assert_eq!(Validity::Invalid.to_i32(), 2);
}

#[test]
fn wire_round_trip() {
    for v in [Validity::Unknown, Validity::Valid, Validity::Invalid] {
        assert_eq!(Validity::from_i32(v.to_i32()), Some(v));
    }
}

#[test]
fn undefined_wire_values_do_not_decode() {
    assert_eq!(Validity::from_i32(3), None);
    assert_eq!(Validity::from_i32(-1), None);
    assert_eq!(Validity::from_i32(i32::MAX), None);
    assert_eq!(Validity::from_i32(i32::MIN), None);
}

#[test]
fn verdict_names() {
    assert_eq!(Validity::Unknown.as_str_name(), "Unknown");
    assert_eq!(Validity::Valid.as_str_name(), "Valid");
    assert_eq!(Validity::Invalid.as_str_name(), "Invalid");
}
