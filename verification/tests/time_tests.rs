use platform_core::time::Timestamp;

#[test]
fn rfc3339_texts_are_read_in_utc() {
    let t = Timestamp::parse_rfc3339("1996-12-19T16:39:57-08:00").expect("valid");
    assert_eq!(t.as_str(), "1996-12-20T00:39:57+00:00");
    assert_eq!(t.to_rfc3339(), "1996-12-20T00:39:57+00:00");
    let z = Timestamp::parse_rfc3339("2024-01-02T03:04:05.5Z").expect("valid");
    assert_eq!(z.as_str(), "2024-01-02T03:04:05.500+00:00");
}

#[test]
fn non_rfc3339_texts_are_refused() {
    assert!(Timestamp::parse_rfc3339("yesterday").is_none());
    assert!(Timestamp::parse_rfc3339("2024-01-02 03:04:05").is_none());
    assert!(Timestamp::parse_rfc3339("").is_none());
}

#[test]
fn parse_or_takes_the_fallback_only_for_unreadable_text() {
    let fallback = Timestamp::parse_rfc3339("1999-09-09T09:09:09Z").expect("valid");
    assert_eq!(Timestamp::parse_or("2020-02-02T02:02:02Z", fallback.clone()).as_str(), "2020-02-02T02:02:02+00:00");
    assert_eq!(Timestamp::parse_or("nonsense", fallback).as_str(), "1999-09-09T09:09:09+00:00");
}

#[test]
fn parsed_texts_read_back_as_themselves() {
    let t = Timestamp::parse_rfc3339("2016-12-31T23:59:60.250-00:30").expect("valid");
    let again = Timestamp::parse_rfc3339(t.as_str()).expect("normal text parses");
    assert_eq!(again.as_str(), t.as_str());
    assert!(t.as_str().ends_with("+00:00"));
}

#[test]
fn now_is_in_normal_form() {
    let t = Timestamp::now();
    assert!(t.as_str().ends_with("+00:00"));
    let again = Timestamp::parse_rfc3339(t.as_str()).expect("now parses");
    assert_eq!(again.as_str(), t.as_str());
    let copy = t.clone();
    assert_eq!(copy.as_str(), t.as_str());
}
