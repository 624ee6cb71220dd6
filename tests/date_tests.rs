use elasticsearch_index_cleaner::date::{deserialize, parse_millis, Timestamp};

#[test]
fn parses_catalog_millis() {
    assert_eq!(parse_millis("1622431908495"), Some(1622431908495));
    assert_eq!(parse_millis("0"), Some(0));
    assert_eq!(parse_millis("-5"), Some(-5));
    assert_eq!(parse_millis("+7"), Some(7));
    assert_eq!(parse_millis("007"), Some(7));
}

#[test]
fn rejects_text_that_is_not_an_integer() {
    assert_eq!(parse_millis(""), None);
    assert_eq!(parse_millis("-"), None);
    assert_eq!(parse_millis("+"), None);
    assert_eq!(parse_millis("12a"), None);
    assert_eq!(parse_millis(" 12"), None);
    assert_eq!(parse_millis("1.5"), None);
    assert_eq!(parse_millis("--1"), None);
}

#[test]
fn parse_limits_of_i64() {
    assert_eq!(parse_millis("9223372036854775807"), Some(i64::MAX));
    assert_eq!(parse_millis("9223372036854775808"), None);
    assert_eq!(parse_millis("-9223372036854775808"), Some(i64::MIN));
    assert_eq!(parse_millis("-9223372036854775809"), None);
    assert_eq!(parse_millis("123456789012345678901234567890"), None);
}

#[test]
fn creation_time_round_trips_through_text() {
    for m in [0i64, 1, 999, 1000, 1001, 1622431908495, -1, -1622431908495, i64::MAX, i64::MIN] {
        let t = deserialize(&m.to_string()).unwrap();
        assert_eq!(t.to_millis(), m);
        assert_eq!(t, Timestamp::from_millis(m));
    }
}

#[test]
fn deserialize_error_keeps_the_text() {
    let e = deserialize("yesterday").unwrap_err();
    assert_eq!(e.text, "yesterday");
}
