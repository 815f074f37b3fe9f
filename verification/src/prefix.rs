//! The prefix label table.
//!
//! Independently of the pattern rules, a message whose text starts with one
//! of a fixed list of literal prefixes is classified with a short action
//! label; the first listed prefix that matches wins.

use vstd::prelude::*;

use crate::chars::{lit_at, lit_matches_at};
use crate::grok::pairs_view;

verus! {

/// The label of the first table entry, at or after `i`, whose prefix opens
/// the message.
pub open spec fn prefix_label_from(
    msg: Seq<char>,
    table: Seq<(Seq<char>, Seq<char>)>,
    i: int,
) -> Option<Seq<char>>
    decreases table.len() - i,
{
    if i < 0 || i >= table.len() {
        None
    } else if lit_at(msg, 0, table[i].0) {
        Some(table[i].1)
    } else {
        prefix_label_from(msg, table, i + 1)
    }
}

/// The label of the first table entry whose prefix opens the message.
pub open spec fn prefix_label(msg: Seq<char>, table: Seq<(Seq<char>, Seq<char>)>) -> Option<
    Seq<char>,
> {
    prefix_label_from(msg, table, 0)
}

/// Scans the table in order and returns the first matching entry's label.
pub fn lookup_prefix_label(msg: &str, table: &Vec<(String, String)>) -> (r: Option<String>)
    ensures
        r is Some <==> prefix_label(msg@, pairs_view(table@)) is Some,
        r matches Some(l) ==> prefix_label(msg@, pairs_view(table@)) == Some(l@),
{
    let mut i: usize = 0;
    while i < table.len()
        invariant
            0 <= i <= table@.len(),
            prefix_label_from(msg@, pairs_view(table@), 0) == prefix_label_from(
                msg@,
                pairs_view(table@),
                i as int,
            ),
        decreases table@.len() - i,
    {
        if lit_matches_at(msg, 0, table[i].0.as_str()) {
            return Some(table[i].1.clone());
        }
        i = i + 1;
    }
    None
}

/// The fixed table of operationally significant message prefixes.
pub open spec fn spec_warrior_actions() -> Seq<(Seq<char>, Seq<char>)> {
    seq![
        ("Received item"@, "item_received"@),
        ("Queued file"@, "queued_file"@),
        ("Queued user"@, "queued_user"@),
        ("Queuing URL"@, "queued_url"@),
        ("Queuing folder"@, "queued_folder"@),
        ("Checking IP address"@, "ip_check"@),
        ("Tracker confirmed item"@, "item_confirmed"@),
        ("Uploading with Rsync"@, "item_uploading"@),
        ("No item received."@, "no_items"@),
    ]
}

/// Builds the prefix label table the driver hands to the engine.
pub fn default_warrior_actions() -> (t: Vec<(String, String)>)
    ensures
        pairs_view(t@) == spec_warrior_actions(),
{
    let mut t: Vec<(String, String)> = Vec::new();
    t.push((String::from_str("Received item"), String::from_str("item_received")));
    t.push((String::from_str("Queued file"), String::from_str("queued_file")));
    t.push((String::from_str("Queued user"), String::from_str("queued_user")));
    t.push((String::from_str("Queuing URL"), String::from_str("queued_url")));
    t.push((String::from_str("Queuing folder"), String::from_str("queued_folder")));
    t.push((String::from_str("Checking IP address"), String::from_str("ip_check")));
    t.push((String::from_str("Tracker confirmed item"), String::from_str("item_confirmed")));
    t.push((String::from_str("Uploading with Rsync"), String::from_str("item_uploading")));
    t.push((String::from_str("No item received."), String::from_str("no_items")));
    proof {
        assert(pairs_view(t@) =~~= spec_warrior_actions());
    }
    t
}

} // verus!
