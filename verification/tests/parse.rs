use eb::parse::max;
use eb::Error;

#[test]
fn not_specified() {
    assert_eq!(max(None), Ok(None));
}

#[test]
fn short_valid() {
    assert_eq!(max(Some("10")), Ok(Some(10_u32)));
}

#[test]
fn short_invalid() {
    assert_eq!(
        max(Some("notanumber")),
        Err(Error::InvalidMaxValue("invalid digit found in string".to_string()))
    );
}

#[test]
fn empty_value_is_rejected() {
    assert_eq!(
        max(Some("")),
        Err(Error::InvalidMaxValue("cannot parse integer from empty string".to_string()))
    );
}

#[test]
fn leading_plus_is_accepted() {
    assert_eq!(max(Some("+10")), Ok(Some(10_u32)));
}

#[test]
fn lone_plus_is_rejected() {
    assert_eq!(
        max(Some("+")),
        Err(Error::InvalidMaxValue("invalid digit found in string".to_string()))
    );
}

#[test]
fn negative_value_is_rejected() {
    assert_eq!(
        max(Some("-5")),
        Err(Error::InvalidMaxValue("invalid digit found in string".to_string()))
    );
}

#[test]
fn largest_value_parses() {
    assert_eq!(max(Some("4294967295")), Ok(Some(u32::MAX)));
}

#[test]
fn too_large_value_is_rejected() {
    assert_eq!(
        max(Some("4294967296")),
        Err(Error::InvalidMaxValue("number too large to fit in target type".to_string()))
    );
}

#[test]
fn zero_parses() {
    assert_eq!(max(Some("0")), Ok(Some(0_u32)));
}
