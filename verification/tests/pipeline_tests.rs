use beatbeatlarge::pipeline::{grok_message, process_envelope, FileStats, LineOutcome};
use beatbeatlarge::prefix::default_warrior_actions;
use beatbeatlarge::structs::{
    BeatContainerMetadata, Message, ParseError, RawContainer, RawEnvelope,
};

fn s(t: &str) -> String {
    t.to_string()
}

fn message(host: &str, text: &str) -> Message {
    Message {
        timestamp: 0,
        hostname: s(host),
        message: s(text),
        container: None,
    }
}

fn raw(ts: &str, host: &str, text: &str) -> RawEnvelope {
    RawEnvelope {
        timestamp: Some(s(ts)),
        hostname: Some(s(host)),
        message: Some(s(text)),
        container: RawContainer::Absent,
    }
}

#[test]
fn status_line_serializes_exactly() {
    let table = default_warrior_actions();
    let line = grok_message(message("h1", "404=404 "), &table).unwrap();
    assert_eq!(line, "metric,host=h1 status_code=404i 0");
}

#[test]
fn stage_line_serializes_quoted_text_fields() {
    let table = default_warrior_actions();
    let mut m = message("h1", "Starting foo for Item");
    m.timestamp = 1609459200123;
    let line = grok_message(m, &table).unwrap();
    assert_eq!(
        line,
        "metric,host=h1 pipeline_stage=\"Starting\",pipeline_task=\"foo\" 1609459200123"
    );
}

#[test]
fn rsync_line_serializes_bare_number_literals() {
    let table = default_warrior_actions();
    let line = grok_message(
        message("h1", "sent 1,234 bytes  received 5,678 bytes  9.9 bytes"),
        &table,
    )
    .unwrap();
    assert_eq!(
        line,
        "metric,host=h1 rsync_sent=1234,rsync_received=5678,rsync_throughput=9.9 0"
    );
}

#[test]
fn prefix_label_alone_yields_a_record() {
    let table = default_warrior_actions();
    let line = grok_message(message("h1", "Queued file X"), &table).unwrap();
    assert_eq!(line, "metric,host=h1 warrior_action=\"queued_file\" 0");
}

#[test]
fn prefix_label_adds_to_pattern_fields() {
    let table = default_warrior_actions();
    // No rule matches "Queued file X", but a rule and a prefix can both
    // contribute when the text serves both.
    let line = grok_message(
        message("h1", "Tracker confirmed item sent 1 bytes  received 2 bytes  3 bytes"),
        &table,
    )
    .unwrap();
    assert_eq!(
        line,
        "metric,host=h1 rsync_sent=1,rsync_received=2,rsync_throughput=3,\
         warrior_action=\"item_confirmed\" 0"
    );
}

#[test]
fn no_fields_suppresses_the_record() {
    let table = default_warrior_actions();
    assert!(grok_message(message("h1", "nothing to see"), &table).is_none());
}

#[test]
fn tag_values_are_escaped() {
    let table = default_warrior_actions();
    let line = grok_message(message("a b,c=d", "404=404 "), &table).unwrap();
    assert_eq!(line, "metric,host=a\\ b\\,c\\=d status_code=404i 0");
}

#[test]
fn text_field_quotes_and_backslashes_are_escaped() {
    let table = default_warrior_actions();
    let line = grok_message(
        message("h1", "Initializing pipeline for 'a\"b\\c'"),
        &table,
    )
    .unwrap();
    assert_eq!(
        line,
        "metric,host=h1 pipeline_stage=\"Initializing\",pipeline_name=\"a\\\"b\\\\c\" 0"
    );
}

#[test]
fn container_image_tags_and_name_fields() {
    let table = default_warrior_actions();
    let mut m = message("h1", "404=404 ");
    m.container = Some(BeatContainerMetadata {
        id: s("c1"),
        name: Some(s("webapp")),
        image: Some(s("img:tag")),
    });
    let line = grok_message(m, &table).unwrap();
    assert_eq!(
        line,
        "metric,host=h1,container_image=img:tag status_code=404i,container_name=\"webapp\" 0"
    );
}

#[test]
fn container_image_without_name_adds_only_the_tag() {
    let table = default_warrior_actions();
    let mut m = message("h1", "404=404 ");
    m.container = Some(BeatContainerMetadata {
        id: s("c1"),
        name: None,
        image: Some(s("img:tag")),
    });
    let line = grok_message(m, &table).unwrap();
    assert_eq!(
        line,
        "metric,host=h1,container_image=img:tag status_code=404i 0"
    );
}

#[test]
fn negative_timestamps_serialize_with_a_sign() {
    let table = default_warrior_actions();
    let mut m = message("h1", "404=404 ");
    m.timestamp = -1000;
    let line = grok_message(m, &table).unwrap();
    assert_eq!(line, "metric,host=h1 status_code=404i -1000");
}

#[test]
fn process_envelope_emits_for_a_full_line() {
    let table = default_warrior_actions();
    let outcome = process_envelope(raw("1970-01-01T00:00:00Z", "h1", "404=404 "), &table);
    match outcome {
        LineOutcome::Emit(line) => {
            assert_eq!(line, "metric,host=h1 status_code=404i 0")
        }
        _ => panic!("expected an emitted record"),
    }
}

#[test]
fn process_envelope_reports_parse_failures() {
    let table = default_warrior_actions();
    let mut r = raw("1970-01-01T00:00:00Z", "h1", "404=404 ");
    r.hostname = None;
    match process_envelope(r, &table) {
        LineOutcome::Skip(e) => assert_eq!(e, ParseError::MissingHostname),
        _ => panic!("expected a skipped line"),
    }
}

#[test]
fn process_envelope_reports_cast_failures() {
    let table = default_warrior_actions();
    let r = raw("1970-01-01T00:00:00Z", "h1", "1=99999999999999999999 ");
    assert!(matches!(process_envelope(r, &table), LineOutcome::CastFailed));
}

#[test]
fn process_envelope_suppresses_empty_extractions() {
    let table = default_warrior_actions();
    let r = raw("1970-01-01T00:00:00Z", "h1", "quiet line");
    assert!(matches!(process_envelope(r, &table), LineOutcome::NoFields));
}

#[test]
fn reprocessing_the_same_line_is_byte_identical() {
    let table = default_warrior_actions();
    let make = || raw("2021-01-01T00:00:00Z", "h1", "sent 1 bytes  received 2 bytes  3.5 bytes");
    let first = match process_envelope(make(), &table) {
        LineOutcome::Emit(line) => line,
        _ => panic!("expected an emitted record"),
    };
    let second = match process_envelope(make(), &table) {
        LineOutcome::Emit(line) => line,
        _ => panic!("expected an emitted record"),
    };
    assert_eq!(first.into_bytes(), second.into_bytes());
}

#[test]
fn file_stats_count_and_saturate() {
    let mut st = FileStats::new();
    st.add_bytes(10);
    st.add_bytes(32);
    st.add_parsed_line();
    assert_eq!(st.bytes, 42);
    assert_eq!(st.lines, 1);
    st.bytes = u64::MAX - 1;
    st.add_bytes(100);
    assert_eq!(st.bytes, u64::MAX);
}
