//! The ordered pattern rule table.
//!
//! Four fixed rules are tried against the message text in order, and the
//! first rule that matches contributes its named captures; later rules are
//! never consulted.  Each rule is an anchored or searched literal-and-run
//! grammar over the character classes of [`crate::chars`].

use vstd::prelude::*;

use crate::chars::{
    copy_range, find_last_char, find_run_end, is_space, last_index_of, lemma_last_index_of,
    lit_at, lit_matches_at, run_end, spec_is_space, CharClass,
};

verus! {

/// The view of a list of named captures: pairs of capture name and raw text.
pub open spec fn pairs_view(v: Seq<(String, String)>) -> Seq<(Seq<char>, Seq<char>)> {
    Seq::new(v.len(), |i: int| (v[i].0@, v[i].1@))
}

// --- Rule 1: a pipeline stage word, a task word, then " for Item" ---------
/// Length of the stage word when the message opens with one, else `-1`.
pub open spec fn rule1_stage_len(s: Seq<char>) -> int {
    if lit_at(s, 0, "Starting "@) {
        8
    } else if lit_at(s, 0, "Failed "@) {
        6
    } else if lit_at(s, 0, "Finished "@) {
        8
    } else {
        -1
    }
}

pub open spec fn rule1_matches(s: Seq<char>) -> bool {
    let sl = rule1_stage_len(s);
    sl >= 0 && {
        let wend = run_end(s, sl + 1, CharClass::Word);
        wend > sl + 1 && lit_at(s, wend, " for Item"@)
    }
}

pub open spec fn rule1_captures(s: Seq<char>) -> Seq<(Seq<char>, Seq<char>)> {
    let sl = rule1_stage_len(s);
    let wend = run_end(s, sl + 1, CharClass::Word);
    seq![
        ("pipeline_stage"@, s.subrange(0, sl)),
        ("pipeline_task"@, s.subrange(sl + 1, wend)),
    ]
}

pub fn try_rule1(s: &str) -> (r: Option<Vec<(String, String)>>)
    ensures
        r is Some <==> rule1_matches(s@),
        r matches Some(v) ==> pairs_view(v@) == rule1_captures(s@),
{
    let sl: usize;
    if lit_matches_at(s, 0, "Starting ") {
        sl = 8;
        proof {
            reveal_strlit("Starting ");
        }
    } else if lit_matches_at(s, 0, "Failed ") {
        sl = 6;
        proof {
            reveal_strlit("Failed ");
        }
    } else if lit_matches_at(s, 0, "Finished ") {
        sl = 8;
        proof {
            reveal_strlit("Finished ");
        }
    } else {
        return None;
    }
    let wstart = sl + 1;
    let wend = find_run_end(s, wstart, CharClass::Word);
    if wend == wstart {
        return None;
    }
    if !lit_matches_at(s, wend, " for Item") {
        return None;
    }
    let mut v: Vec<(String, String)> = Vec::new();
    v.push((String::from_str("pipeline_stage"), copy_range(s, 0, sl)));
    v.push((String::from_str("pipeline_task"), copy_range(s, wstart, wend)));
    proof {
        assert(pairs_view(v@) =~~= rule1_captures(s@));
    }
    Some(v)
}

// --- Rule 2: digits, '=', a captured status code, then a space ------------
pub open spec fn rule2_matches(s: Seq<char>) -> bool {
    let d1 = run_end(s, 0, CharClass::Digit);
    d1 > 0 && d1 < s.len() && s[d1] == '=' && {
        let d2 = run_end(s, d1 + 1, CharClass::Digit);
        d2 > d1 + 1 && d2 < s.len() && s[d2] == ' '
    }
}

pub open spec fn rule2_captures(s: Seq<char>) -> Seq<(Seq<char>, Seq<char>)> {
    let d1 = run_end(s, 0, CharClass::Digit);
    let d2 = run_end(s, d1 + 1, CharClass::Digit);
    seq![("status_code"@, s.subrange(d1 + 1, d2))]
}

pub fn try_rule2(s: &str) -> (r: Option<Vec<(String, String)>>)
    ensures
        r is Some <==> rule2_matches(s@),
        r matches Some(v) ==> pairs_view(v@) == rule2_captures(s@),
{
    let len = s.unicode_len();
    let d1 = find_run_end(s, 0, CharClass::Digit);
    if d1 == 0 || d1 >= len {
        return None;
    }
    if s.get_char(d1) != '=' {
        return None;
    }
    let d2 = find_run_end(s, d1 + 1, CharClass::Digit);
    if d2 == d1 + 1 || d2 >= len {
        return None;
    }
    if s.get_char(d2) != ' ' {
        return None;
    }
    let mut v: Vec<(String, String)> = Vec::new();
    v.push((String::from_str("status_code"), copy_range(s, d1 + 1, d2)));
    proof {
        assert(pairs_view(v@) =~~= rule2_captures(s@));
    }
    Some(v)
}

// --- Rule 3: an rsync transfer summary, searched anywhere in the text -----
/// The rule matches at position `i`: "sent ", a digit-comma run, " bytes",
/// two whitespace characters, "received ", a second run, " bytes", two
/// whitespace characters, a digit-comma-dot run, then " bytes".
pub open spec fn rule3_at(s: Seq<char>, i: int) -> bool {
    lit_at(s, i, "sent "@) && {
        let a1 = run_end(s, i + 5, CharClass::DigitComma);
        a1 > i + 5 && lit_at(s, a1, " bytes"@) && a1 + 8 <= s.len() && spec_is_space(s[a1 + 6])
            && spec_is_space(s[a1 + 7]) && lit_at(s, a1 + 8, "received "@) && {
            let b1 = run_end(s, a1 + 17, CharClass::DigitComma);
            b1 > a1 + 17 && lit_at(s, b1, " bytes"@) && b1 + 8 <= s.len() && spec_is_space(
                s[b1 + 6],
            ) && spec_is_space(s[b1 + 7]) && {
                let c1 = run_end(s, b1 + 8, CharClass::DigitCommaDot);
                c1 > b1 + 8 && lit_at(s, c1, " bytes"@)
            }
        }
    }
}

/// The first position at or after `i` where rule 3 matches, or `-1`.
pub open spec fn rule3_pos_from(s: Seq<char>, i: int) -> int
    decreases s.len() - i,
{
    if i < 0 || i >= s.len() {
        -1
    } else if rule3_at(s, i) {
        i
    } else {
        rule3_pos_from(s, i + 1)
    }
}

pub open spec fn rule3_matches(s: Seq<char>) -> bool {
    rule3_pos_from(s, 0) >= 0
}

pub open spec fn rule3_captures(s: Seq<char>) -> Seq<(Seq<char>, Seq<char>)> {
    let i = rule3_pos_from(s, 0);
    let a1 = run_end(s, i + 5, CharClass::DigitComma);
    let b1 = run_end(s, a1 + 17, CharClass::DigitComma);
    let c1 = run_end(s, b1 + 8, CharClass::DigitCommaDot);
    seq![
        ("rsync_sent"@, s.subrange(i + 5, a1)),
        ("rsync_received"@, s.subrange(a1 + 17, b1)),
        ("rsync_throughput"@, s.subrange(b1 + 8, c1)),
    ]
}

/// Checks rule 3 at one position and hands back the three run ends.
fn rule3_check_at(s: &str, i: usize) -> (r: Option<(usize, usize, usize)>)
    requires
        i <= s@.len(),
    ensures
        r is Some <==> rule3_at(s@, i as int),
        r matches Some(ends) ==> {
            &&& ends.0 == run_end(s@, i + 5, CharClass::DigitComma)
            &&& ends.1 == run_end(s@, ends.0 + 17, CharClass::DigitComma)
            &&& ends.2 == run_end(s@, ends.1 + 8, CharClass::DigitCommaDot)
            &&& i + 5 <= ends.0 && ends.0 + 17 <= ends.1 && ends.1 + 8 <= ends.2 <= s@.len()
        },
{
    let len = s.unicode_len();
    if !lit_matches_at(s, i, "sent ") {
        return None;
    }
    proof {
        reveal_strlit("sent ");
    }
    let a1 = find_run_end(s, i + 5, CharClass::DigitComma);
    if a1 == i + 5 {
        return None;
    }
    if !lit_matches_at(s, a1, " bytes") {
        return None;
    }
    proof {
        reveal_strlit(" bytes");
    }
    if len - a1 < 8 {
        return None;
    }
    if !is_space(s.get_char(a1 + 6)) || !is_space(s.get_char(a1 + 7)) {
        return None;
    }
    if !lit_matches_at(s, a1 + 8, "received ") {
        return None;
    }
    proof {
        reveal_strlit("received ");
    }
    let b1 = find_run_end(s, a1 + 17, CharClass::DigitComma);
    if b1 == a1 + 17 {
        return None;
    }
    if !lit_matches_at(s, b1, " bytes") {
        return None;
    }
    if len - b1 < 8 {
        return None;
    }
    if !is_space(s.get_char(b1 + 6)) || !is_space(s.get_char(b1 + 7)) {
        return None;
    }
    let c1 = find_run_end(s, b1 + 8, CharClass::DigitCommaDot);
    if c1 == b1 + 8 {
        return None;
    }
    if !lit_matches_at(s, c1, " bytes") {
        return None;
    }
    Some((a1, b1, c1))
}

pub fn try_rule3(s: &str) -> (r: Option<Vec<(String, String)>>)
    ensures
        r is Some <==> rule3_matches(s@),
        r matches Some(v) ==> pairs_view(v@) == rule3_captures(s@),
{
    let len = s.unicode_len();
    let mut i: usize = 0;
    while i < len
        invariant
            0 <= i <= len,
            len == s@.len(),
            rule3_pos_from(s@, 0) == rule3_pos_from(s@, i as int),
        decreases len - i,
    {
        match rule3_check_at(s, i) {
            Some((a1, b1, c1)) => {
                let mut v: Vec<(String, String)> = Vec::new();
                v.push((String::from_str("rsync_sent"), copy_range(s, i + 5, a1)));
                v.push((String::from_str("rsync_received"), copy_range(s, a1 + 17, b1)));
                v.push((String::from_str("rsync_throughput"), copy_range(s, b1 + 8, c1)));
                proof {
                    assert(rule3_pos_from(s@, i as int) == i as int);
                    assert(pairs_view(v@) =~~= rule3_captures(s@));
                }
                return Some(v);
            },
            None => {
                i = i + 1;
            },
        }
    }
    None
}

// --- Rule 4: an initializing banner with a quoted pipeline name -----------
/// Index of the closing quote: the last quote before any line feed that
/// follows the opening banner.
pub open spec fn rule4_quote(s: Seq<char>) -> int {
    let nl = run_end(s, 27, CharClass::NotNewline);
    last_index_of(s, 27, nl, '\'')
}

pub open spec fn rule4_matches(s: Seq<char>) -> bool {
    lit_at(s, 0, "Initializing pipeline for '"@) && rule4_quote(s) > 27
}

pub open spec fn rule4_captures(s: Seq<char>) -> Seq<(Seq<char>, Seq<char>)> {
    seq![
        ("pipeline_stage"@, s.subrange(0, 12)),
        ("pipeline_name"@, s.subrange(27, rule4_quote(s))),
    ]
}

pub fn try_rule4(s: &str) -> (r: Option<Vec<(String, String)>>)
    ensures
        r is Some <==> rule4_matches(s@),
        r matches Some(v) ==> pairs_view(v@) == rule4_captures(s@),
{
    if !lit_matches_at(s, 0, "Initializing pipeline for '") {
        return None;
    }
    proof {
        reveal_strlit("Initializing pipeline for '");
    }
    let nl = find_run_end(s, 27, CharClass::NotNewline);
    match find_last_char(s, 27, nl, '\'') {
        Some(j) => {
            if j <= 27 {
                return None;
            }
            proof {
                lemma_last_index_of(s@, 27, nl as int, '\'');
            }
            let mut v: Vec<(String, String)> = Vec::new();
            v.push((String::from_str("pipeline_stage"), copy_range(s, 0, 12)));
            v.push((String::from_str("pipeline_name"), copy_range(s, 27, j)));
            proof {
                assert(pairs_view(v@) =~~= rule4_captures(s@));
            }
            Some(v)
        },
        None => None,
    }
}

// --- The ordered table -----------------------------------------------------
pub open spec fn rule_matches(idx: int, s: Seq<char>) -> bool {
    if idx == 0 {
        rule1_matches(s)
    } else if idx == 1 {
        rule2_matches(s)
    } else if idx == 2 {
        rule3_matches(s)
    } else if idx == 3 {
        rule4_matches(s)
    } else {
        false
    }
}

pub open spec fn rule_captures_of(idx: int, s: Seq<char>) -> Seq<(Seq<char>, Seq<char>)> {
    if idx == 0 {
        rule1_captures(s)
    } else if idx == 1 {
        rule2_captures(s)
    } else if idx == 2 {
        rule3_captures(s)
    } else {
        rule4_captures(s)
    }
}

/// The named captures of the first rule in the table that matches `s`.
pub open spec fn grok_captures(s: Seq<char>) -> Option<Seq<(Seq<char>, Seq<char>)>> {
    if rule1_matches(s) {
        Some(rule1_captures(s))
    } else if rule2_matches(s) {
        Some(rule2_captures(s))
    } else if rule3_matches(s) {
        Some(rule3_captures(s))
    } else if rule4_matches(s) {
        Some(rule4_captures(s))
    } else {
        None
    }
}

/// Applies the rule table in order and returns the first match's captures.
pub fn first_rule_captures(s: &str) -> (r: Option<Vec<(String, String)>>)
    ensures
        r is Some <==> grok_captures(s@) is Some,
        r matches Some(v) ==> Some(pairs_view(v@)) == grok_captures(s@),
{
    if let Some(v) = try_rule1(s) {
        return Some(v);
    }
    if let Some(v) = try_rule2(s) {
        return Some(v);
    }
    if let Some(v) = try_rule3(s) {
        return Some(v);
    }
    if let Some(v) = try_rule4(s) {
        return Some(v);
    }
    None
}

/// First-match-wins: when two rules of the ordered table both match a
/// message, the extraction carries the captures of a rule no later than the
/// earlier of the two; the later rule contributes nothing.
pub proof fn lemma_first_match_wins(s: Seq<char>, i: int, j: int)
    requires
        0 <= i < j,
        rule_matches(i, s),
        rule_matches(j, s),
    ensures
        exists|k: int|
            0 <= k <= i && #[trigger] rule_matches(k, s) && grok_captures(s) == Some(
                rule_captures_of(k, s),
            ),
{
    if rule1_matches(s) {
        assert(rule_matches(0, s) && grok_captures(s) == Some(rule_captures_of(0, s)));
    } else if rule2_matches(s) {
        assert(i >= 1);
        assert(rule_matches(1, s) && grok_captures(s) == Some(rule_captures_of(1, s)));
    } else if rule3_matches(s) {
        assert(i >= 2);
        assert(rule_matches(2, s) && grok_captures(s) == Some(rule_captures_of(2, s)));
    } else {
        assert(rule4_matches(s));
        assert(i >= 3);
        assert(rule_matches(3, s) && grok_captures(s) == Some(rule_captures_of(3, s)));
    }
}

} // verus!
