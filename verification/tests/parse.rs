use movie_store::parse::parse_u64;

#[test]
fn parses_zero() {
    assert_eq!(parse_u64("0"), Some(0));
}

#[test]
fn parses_small_number() {
    assert_eq!(parse_u64("42"), Some(42));
}

#[test]
fn parses_leading_zeros() {
    assert_eq!(parse_u64("007"), Some(7));
}

#[test]
fn parses_u64_max() {
    assert_eq!(parse_u64("18446744073709551615"), Some(u64::MAX));
}

#[test]
fn rejects_just_past_u64_max() {
    assert_eq!(parse_u64("18446744073709551616"), None);
}

#[test]
fn rejects_far_past_u64_max() {
    assert_eq!(parse_u64("99999999999999999999999"), None);
}

#[test]
fn rejects_empty() {
    assert_eq!(parse_u64(""), None);
}

#[test]
fn rejects_letters() {
    assert_eq!(parse_u64("abc"), None);
}

#[test]
fn rejects_mixed() {
    assert_eq!(parse_u64("12x"), None);
    assert_eq!(parse_u64("x12"), None);
}

#[test]
fn rejects_sign_and_space() {
    assert_eq!(parse_u64("-1"), None);
    assert_eq!(parse_u64("+1"), None);
    assert_eq!(parse_u64(" 1"), None);
    assert_eq!(parse_u64("1 "), None);
}
