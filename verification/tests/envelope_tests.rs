use beatbeatlarge::envelope::parse_line;
use beatbeatlarge::structs::{ParseError, RawContainer, RawEnvelope};

fn s(t: &str) -> String {
    t.to_string()
}

fn full_raw() -> RawEnvelope {
    RawEnvelope {
        timestamp: Some(s("2021-01-01T00:00:00Z")),
        hostname: Some(s("host-a")),
        message: Some(s("hello")),
        container: RawContainer::Object {
            id: Some(s("c1")),
            name: Some(s("nm")),
            image: Some(s("img:tag")),
        },
    }
}

#[test]
fn parse_line_round_trips_all_values() {
    let m = parse_line(full_raw()).unwrap();
    assert_eq!(m.timestamp, 1609459200000);
    assert_eq!(m.hostname, "host-a");
    assert_eq!(m.message, "hello");
    let c = m.container.unwrap();
    assert_eq!(c.id, "c1");
    assert_eq!(c.name.as_deref(), Some("nm"));
    assert_eq!(c.image.as_deref(), Some("img:tag"));
}

#[test]
fn parse_line_keeps_millisecond_precision() {
    let mut raw = full_raw();
    raw.timestamp = Some(s("2021-01-01T00:00:00.123Z"));
    let m = parse_line(raw).unwrap();
    assert_eq!(m.timestamp, 1609459200123);
}

#[test]
fn parse_line_honours_utc_offset() {
    let mut raw = full_raw();
    raw.timestamp = Some(s("1970-01-01T01:00:00+01:00"));
    let m = parse_line(raw).unwrap();
    assert_eq!(m.timestamp, 0);
}

#[test]
fn parse_line_missing_timestamp_fails() {
    let mut raw = full_raw();
    raw.timestamp = None;
    assert_eq!(parse_line(raw).unwrap_err(), ParseError::MissingTimestamp);
}

#[test]
fn parse_line_bad_timestamp_fails() {
    let mut raw = full_raw();
    raw.timestamp = Some(s("yesterday at noon"));
    assert_eq!(parse_line(raw).unwrap_err(), ParseError::BadTimestamp);
}

#[test]
fn parse_line_missing_hostname_fails() {
    let mut raw = full_raw();
    raw.hostname = None;
    assert_eq!(parse_line(raw).unwrap_err(), ParseError::MissingHostname);
}

#[test]
fn parse_line_missing_message_fails() {
    let mut raw = full_raw();
    raw.message = None;
    assert_eq!(parse_line(raw).unwrap_err(), ParseError::MissingMessage);
}

#[test]
fn parse_line_container_not_object_fails() {
    let mut raw = full_raw();
    raw.container = RawContainer::NotObject;
    assert_eq!(parse_line(raw).unwrap_err(), ParseError::BadContainer);
}

#[test]
fn parse_line_container_without_id_fails() {
    let mut raw = full_raw();
    raw.container = RawContainer::Object {
        id: None,
        name: Some(s("nm")),
        image: None,
    };
    assert_eq!(parse_line(raw).unwrap_err(), ParseError::MissingContainerId);
}

#[test]
fn parse_line_container_error_reported_before_timestamp() {
    let mut raw = full_raw();
    raw.timestamp = None;
    raw.container = RawContainer::NotObject;
    assert_eq!(parse_line(raw).unwrap_err(), ParseError::BadContainer);
}

#[test]
fn parse_line_without_container_succeeds() {
    let mut raw = full_raw();
    raw.container = RawContainer::Absent;
    let m = parse_line(raw).unwrap();
    assert!(m.container.is_none());
}

#[test]
fn parse_line_agrees_with_chrono() {
    for ts in [
        "2021-03-05T12:34:56.789Z",
        "1999-12-31T23:59:59-05:00",
        "2024-02-29T00:00:00.001+09:30",
    ] {
        let mut raw = full_raw();
        raw.timestamp = Some(s(ts));
        let m = parse_line(raw).unwrap();
        let expect = chrono::DateTime::parse_from_rfc3339(ts)
            .unwrap()
            .timestamp_millis();
        assert_eq!(m.timestamp, expect);
    }
}
