//! Checks the verified matchers against the regex engine on the same
//! ordered pattern list, message by message.

use beatbeatlarge::fields::{extract_fields, FieldValue};
use regex::Regex;

fn patterns() -> Vec<Regex> {
    vec![
        Regex::new(r"^(?P<pipeline_stage>Starting|Failed|Finished) (?P<pipeline_task>\w+) for Item")
            .unwrap(),
        Regex::new(r"^\d+=(?P<status_code>\d+) ").unwrap(),
        Regex::new(
            r"sent (?P<rsync_sent>[\d,]+) bytes\s\sreceived (?P<rsync_received>[\d,]+) bytes\s\s(?P<rsync_throughput>[\d,\.]+) bytes",
        )
        .unwrap(),
        Regex::new(r"^(?P<pipeline_stage>Initializing) pipeline for '(?P<pipeline_name>.+)'")
            .unwrap(),
    ]
}

/// The first matching pattern's named captures, in declaration order.
fn regex_captures(msg: &str) -> Option<Vec<(String, String)>> {
    for re in patterns() {
        if let Some(caps) = re.captures(msg) {
            let mut out = Vec::new();
            for name in re.capture_names().flatten() {
                out.push((name.to_string(), caps[name].to_string()));
            }
            return Some(out);
        }
    }
    None
}

fn assert_agrees(msg: &str) {
    let ours = extract_fields(msg).expect("no cast failures in these samples");
    match regex_captures(msg) {
        None => assert!(ours.is_empty(), "library extracted fields for {:?}", msg),
        Some(raw) => {
            assert_eq!(ours.len(), raw.len(), "field count differs for {:?}", msg);
            for ((our_name, our_val), (re_name, re_val)) in ours.iter().zip(raw.iter()) {
                assert_eq!(our_name, re_name, "names differ for {:?}", msg);
                let stripped = re_val.replace(',', "");
                match our_val {
                    FieldValue::Text(t) => assert_eq!(t, re_val),
                    FieldValue::Integer(n) => {
                        assert_eq!(*n, stripped.parse::<i64>().unwrap())
                    }
                    FieldValue::Number(l) => {
                        let a: f64 = l.parse().unwrap();
                        let b: f64 = stripped.parse().unwrap();
                        assert_eq!(a, b);
                    }
                }
            }
        }
    }
}

#[test]
fn matchers_agree_with_the_regex_engine() {
    let samples = [
        "Starting foo for Item",
        "Starting foo for Items galore",
        "Failed upload for Item 7",
        "Finished x9_ for Item",
        "Starting foo bar for Item",
        "Starting  for Item",
        "Restarting foo for Item",
        "404=404 ",
        "7=8 and the rest",
        "404=404",
        "=404 ",
        "12= 34 ",
        "sent 1,234 bytes  received 5,678 bytes  9.9 bytes",
        "log: sent 10 bytes  received 20 bytes  30.5 bytes/sec",
        "sent 1 bytes received 2 bytes  3 bytes",
        "sent 1 bytes  received 2 bytes 3 bytes",
        "Initializing pipeline for 'my pipe'",
        "Initializing pipeline for 'a'b'c'",
        "Initializing pipeline for ''",
        "Initializing pipeline for 'p'\nmore 'q'",
        "Initializing pipeline for '\nx'",
        "Queued file X",
        "nothing interesting",
        "",
        "sent  bytes  received  bytes   bytes",
    ];
    for msg in samples {
        assert_agrees(msg);
    }
}

#[test]
fn first_match_wins_agrees_with_the_regex_engine() {
    for msg in [
        "Starting foo for Item sent 1 bytes  received 2 bytes  3 bytes",
        "7=8 sent 1 bytes  received 2 bytes  3 bytes",
        "Initializing pipeline for 'sent 1 bytes  received 2 bytes  3 bytes'",
    ] {
        assert_agrees(msg);
    }
}
