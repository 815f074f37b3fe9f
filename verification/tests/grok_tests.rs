use beatbeatlarge::fields::{extract_fields, FieldValue};
use beatbeatlarge::prefix::{default_warrior_actions, lookup_prefix_label};

fn names_and_values(fields: &[(String, FieldValue)]) -> Vec<(String, String)> {
    fields
        .iter()
        .map(|(k, v)| {
            let shown = match v {
                FieldValue::Text(t) => format!("t:{}", t),
                FieldValue::Integer(n) => format!("i:{}", n),
                FieldValue::Number(l) => format!("n:{}", l),
            };
            (k.clone(), shown)
        })
        .collect()
}

#[test]
fn pipeline_stage_rule_extracts_stage_and_task() {
    let fields = extract_fields("Starting foo for Item").unwrap();
    assert_eq!(
        names_and_values(&fields),
        vec![
            ("pipeline_stage".to_string(), "t:Starting".to_string()),
            ("pipeline_task".to_string(), "t:foo".to_string()),
        ]
    );
}

#[test]
fn pipeline_stage_rule_other_stages() {
    let fields = extract_fields("Failed upload for Item 12").unwrap();
    assert_eq!(
        names_and_values(&fields),
        vec![
            ("pipeline_stage".to_string(), "t:Failed".to_string()),
            ("pipeline_task".to_string(), "t:upload".to_string()),
        ]
    );
    let fields = extract_fields("Finished x9_ for Item").unwrap();
    assert_eq!(
        names_and_values(&fields),
        vec![
            ("pipeline_stage".to_string(), "t:Finished".to_string()),
            ("pipeline_task".to_string(), "t:x9_".to_string()),
        ]
    );
}

#[test]
fn pipeline_stage_rule_needs_the_trailer() {
    assert!(extract_fields("Starting foo bar for Item").unwrap().is_empty());
    assert!(extract_fields("Starting  for Item").unwrap().is_empty());
    assert!(extract_fields("Restarting foo for Item").unwrap().is_empty());
}

#[test]
fn status_code_rule_casts_to_integer() {
    let fields = extract_fields("404=404 ").unwrap();
    assert_eq!(fields.len(), 1);
    assert_eq!(fields[0].0, "status_code");
    assert_eq!(fields[0].1, FieldValue::Integer(404));
}

#[test]
fn status_code_rule_needs_equals_and_space() {
    assert!(extract_fields("404=404").unwrap().is_empty());
    assert!(extract_fields("=404 ").unwrap().is_empty());
    assert!(extract_fields("404= ").unwrap().is_empty());
}

#[test]
fn status_code_overflow_is_a_cast_failure() {
    assert!(extract_fields("1=99999999999999999999 ").is_none());
}

#[test]
fn rsync_rule_strips_commas_and_keeps_decimals() {
    let fields =
        extract_fields("sent 1,234 bytes  received 5,678 bytes  9.9 bytes").unwrap();
    assert_eq!(
        names_and_values(&fields),
        vec![
            ("rsync_sent".to_string(), "n:1234".to_string()),
            ("rsync_received".to_string(), "n:5678".to_string()),
            ("rsync_throughput".to_string(), "n:9.9".to_string()),
        ]
    );
    for (_, v) in &fields {
        if let FieldValue::Number(lit) = v {
            let parsed: f64 = lit.parse().unwrap();
            assert!([1234.0, 5678.0, 9.9].contains(&parsed));
        } else {
            panic!("expected a floating-point field");
        }
    }
}

#[test]
fn rsync_rule_matches_anywhere_in_the_text() {
    let fields = extract_fields(
        "rsync done: sent 10 bytes  received 20 bytes  30.5 bytes/sec total",
    )
    .unwrap();
    assert_eq!(
        names_and_values(&fields),
        vec![
            ("rsync_sent".to_string(), "n:10".to_string()),
            ("rsync_received".to_string(), "n:20".to_string()),
            ("rsync_throughput".to_string(), "n:30.5".to_string()),
        ]
    );
}

#[test]
fn rsync_rule_all_comma_capture_is_a_cast_failure() {
    assert!(extract_fields("sent , bytes  received 1 bytes  2 bytes").is_none());
}

#[test]
fn initializing_rule_takes_the_last_quote() {
    let fields = extract_fields("Initializing pipeline for 'my pipe'").unwrap();
    assert_eq!(
        names_and_values(&fields),
        vec![
            ("pipeline_stage".to_string(), "t:Initializing".to_string()),
            ("pipeline_name".to_string(), "t:my pipe".to_string()),
        ]
    );
    let fields = extract_fields("Initializing pipeline for 'a'b'c'").unwrap();
    assert_eq!(fields[1].1, FieldValue::Text("a'b'c".to_string()));
}

#[test]
fn initializing_rule_ignores_quotes_after_a_newline() {
    assert!(extract_fields("Initializing pipeline for '\nx'").unwrap().is_empty());
    let fields = extract_fields("Initializing pipeline for 'p'\nmore 'q'").unwrap();
    assert_eq!(fields[1].1, FieldValue::Text("p".to_string()));
}

#[test]
fn first_match_wins_over_later_rules() {
    // Both the stage rule and the rsync rule would match; only the
    // earlier stage rule may contribute captures.
    let fields = extract_fields(
        "Starting foo for Item sent 1 bytes  received 2 bytes  3 bytes",
    )
    .unwrap();
    assert_eq!(
        names_and_values(&fields),
        vec![
            ("pipeline_stage".to_string(), "t:Starting".to_string()),
            ("pipeline_task".to_string(), "t:foo".to_string()),
        ]
    );
    // Likewise for the status rule against the rsync rule.
    let fields =
        extract_fields("7=8 sent 1 bytes  received 2 bytes  3 bytes").unwrap();
    assert_eq!(names_and_values(&fields), vec![(
        "status_code".to_string(),
        "i:8".to_string()
    )]);
}

#[test]
fn no_rule_matches_yields_no_fields() {
    assert!(extract_fields("nothing interesting here").unwrap().is_empty());
    assert!(extract_fields("").unwrap().is_empty());
}

#[test]
fn prefix_table_first_match_yields_label() {
    let table = default_warrior_actions();
    let label = lookup_prefix_label("Queued file X", &table);
    assert_eq!(label.as_deref(), Some("queued_file"));
    assert_eq!(
        lookup_prefix_label("No item received. Sleeping", &table).as_deref(),
        Some("no_items")
    );
    assert!(lookup_prefix_label("Queued", &table).is_none());
}
