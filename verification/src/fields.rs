//! Typed field values and the per-name cast table.
//!
//! A named capture is cast by its name: `status_code` to an integer, the
//! three rsync sizes to floating-point literals, and every other name stays
//! text.  Numeric casts first strip grouping commas; a value that then fails
//! to parse as its declared kind is a cast failure, which callers treat as a
//! recoverable per-line condition.

use vstd::prelude::*;

use crate::chars::{spec_is_digit, str_eq};
use crate::grok::{grok_captures, pairs_view};

verus! {

/// A typed value carried by a metric record field.
#[derive(Debug, PartialEq, Eq)]
pub enum FieldValue {
    /// Free text, quoted on the wire.
    Text(String),
    /// A cast integer, suffixed with `i` on the wire.
    Integer(i64),
    /// A cast floating-point number, kept as its comma-stripped decimal
    /// literal, written unsuffixed on the wire.
    Number(String),
}

/// The mathematical value of a typed field.
pub enum SpecFieldValue {
    Text(Seq<char>),
    Integer(int),
    Number(Seq<char>),
}

impl View for FieldValue {
    type V = SpecFieldValue;

    open spec fn view(&self) -> SpecFieldValue {
        match self {
            FieldValue::Text(s) => SpecFieldValue::Text(s@),
            FieldValue::Integer(n) => SpecFieldValue::Integer(*n as int),
            FieldValue::Number(s) => SpecFieldValue::Number(s@),
        }
    }
}

/// The view of a list of named typed fields.
pub open spec fn fields_view(v: Seq<(String, FieldValue)>) -> Seq<(Seq<char>, SpecFieldValue)> {
    Seq::new(v.len(), |i: int| (v[i].0@, v[i].1@))
}

/// `v` with every grouping comma removed.
pub open spec fn strip_commas(v: Seq<char>) -> Seq<char>
    decreases v.len(),
{
    if v.len() == 0 {
        v
    } else if v.last() == ',' {
        strip_commas(v.drop_last())
    } else {
        strip_commas(v.drop_last()).push(v.last())
    }
}

pub open spec fn all_digits(v: Seq<char>) -> bool {
    forall|k: int| 0 <= k < v.len() ==> spec_is_digit(v[k])
}

pub open spec fn digit_val(c: char) -> int {
    c as u32 - 48
}

/// The value of a decimal digit string.
pub open spec fn dec_val(v: Seq<char>) -> int
    decreases v.len(),
{
    if v.len() == 0 {
        0
    } else {
        dec_val(v.drop_last()) * 10 + digit_val(v.last())
    }
}

pub proof fn lemma_dec_val_bounds(v: Seq<char>, i: int)
    requires
        all_digits(v),
        0 <= i <= v.len(),
    ensures
        0 <= dec_val(v.subrange(0, i)) <= dec_val(v),
    decreases v.len() - i,
{
    if i == v.len() {
        assert(v.subrange(0, i) =~= v);
        lemma_dec_val_nonneg(v);
    } else {
        lemma_dec_val_bounds(v, i + 1);
        let w = v.subrange(0, i + 1);
        assert(w.drop_last() =~= v.subrange(0, i));
        lemma_dec_val_nonneg(v.subrange(0, i));
        assert(spec_is_digit(v[i]));
        assert(dec_val(w) == dec_val(v.subrange(0, i)) * 10 + digit_val(v[i]));
    }
}

pub proof fn lemma_dec_val_nonneg(v: Seq<char>)
    requires
        all_digits(v),
    ensures
        dec_val(v) >= 0,
    decreases v.len(),
{
    if v.len() > 0 {
        assert(all_digits(v.drop_last()));
        lemma_dec_val_nonneg(v.drop_last());
        assert(spec_is_digit(v.last()));
    }
}

/// The integer cast: defined exactly when the stripped text is a non-empty
/// digit string whose value fits the integer field type.
pub open spec fn spec_cast_integer(raw: Seq<char>) -> Option<int> {
    let st = strip_commas(raw);
    if st.len() > 0 && all_digits(st) && dec_val(st) <= i64::MAX {
        Some(dec_val(st))
    } else {
        None
    }
}

pub open spec fn count_dots(v: Seq<char>) -> int
    decreases v.len(),
{
    if v.len() == 0 {
        0
    } else {
        count_dots(v.drop_last()) + if v.last() == '.' {
            1int
        } else {
            0int
        }
    }
}

pub open spec fn has_digit(v: Seq<char>) -> bool {
    exists|k: int| 0 <= k < v.len() && spec_is_digit(v[k])
}

pub open spec fn all_number_chars(v: Seq<char>) -> bool {
    forall|k: int| 0 <= k < v.len() ==> spec_is_digit(v[k]) || v[k] == '.'
}

/// A decimal floating-point literal: digits with at most one point and at
/// least one digit.
pub open spec fn valid_number_lit(v: Seq<char>) -> bool {
    all_number_chars(v) && count_dots(v) <= 1 && has_digit(v)
}

/// The floating-point cast keeps the comma-stripped literal when it is a
/// well-formed decimal literal.
pub open spec fn spec_cast_number(raw: Seq<char>) -> Option<Seq<char>> {
    let st = strip_commas(raw);
    if valid_number_lit(st) {
        Some(st)
    } else {
        None
    }
}

/// The name-to-type cast table applied to one named capture.
pub open spec fn spec_cast(name: Seq<char>, raw: Seq<char>) -> Option<SpecFieldValue> {
    if name == "status_code"@ {
        match spec_cast_integer(raw) {
            Some(n) => Some(SpecFieldValue::Integer(n)),
            None => None,
        }
    } else if name == "rsync_sent"@ || name == "rsync_received"@ || name == "rsync_throughput"@ {
        match spec_cast_number(raw) {
            Some(st) => Some(SpecFieldValue::Number(st)),
            None => None,
        }
    } else {
        Some(SpecFieldValue::Text(raw))
    }
}

/// All captures cast in order; `None` as soon as one cast fails.
pub open spec fn cast_all(caps: Seq<(Seq<char>, Seq<char>)>) -> Option<
    Seq<(Seq<char>, SpecFieldValue)>,
>
    decreases caps.len(),
{
    if caps.len() == 0 {
        Some(Seq::empty())
    } else {
        match cast_all(caps.drop_last()) {
            None => None,
            Some(fs) => match spec_cast(caps.last().0, caps.last().1) {
                None => None,
                Some(fv) => Some(fs.push((caps.last().0, fv))),
            },
        }
    }
}

/// The pattern-derived fields of a message: empty when no rule matches,
/// `None` when a matching rule's capture fails its cast.
pub open spec fn spec_extract_fields(msg: Seq<char>) -> Option<Seq<(Seq<char>, SpecFieldValue)>> {
    match grok_captures(msg) {
        None => Some(Seq::empty()),
        Some(caps) => cast_all(caps),
    }
}

fn strip_commas_exec(v: &str) -> (r: String)
    ensures
        r@ == strip_commas(v@),
{
    let n = v.unicode_len();
    let mut out = String::new();
    let mut i: usize = 0;
    while i < n
        invariant
            0 <= i <= n,
            n == v@.len(),
            out@ == strip_commas(v@.subrange(0, i as int)),
        decreases n - i,
    {
        proof {
            assert(v@.subrange(0, i + 1).drop_last() =~= v@.subrange(0, i as int));
            assert(v@.subrange(0, i + 1).last() == v@[i as int]);
        }
        let c = v.get_char(i);
        if c != ',' {
            let piece = v.substring_char(i, i + 1);
            out.append(piece);
            proof {
                assert(out@ =~= strip_commas(v@.subrange(0, i + 1)));
            }
        }
        i = i + 1;
    }
    proof {
        assert(v@.subrange(0, n as int) =~= v@);
    }
    out
}

/// Parses a non-negative decimal digit string, guarding against overflow.
fn parse_digits_i64(st: &str) -> (r: Option<i64>)
    ensures
        match r {
            Some(n) => st@.len() > 0 && all_digits(st@) && dec_val(st@) == n as int && n >= 0,
            None => !(st@.len() > 0 && all_digits(st@) && dec_val(st@) <= i64::MAX),
        },
{
    let n = st.unicode_len();
    if n == 0 {
        return None;
    }
    let mut acc: i64 = 0;
    let mut i: usize = 0;
    while i < n
        invariant
            0 <= i <= n,
            n == st@.len(),
            0 <= acc,
            acc as int == dec_val(st@.subrange(0, i as int)),
            all_digits(st@.subrange(0, i as int)),
        decreases n - i,
    {
        proof {
            assert(st@.subrange(0, i + 1).drop_last() =~= st@.subrange(0, i as int));
            assert(st@.subrange(0, i + 1).last() == st@[i as int]);
        }
        let c = st.get_char(i);
        if !('0' <= c && c <= '9') {
            assert(!all_digits(st@)) by {
                assert(!spec_is_digit(st@[i as int]));
            }
            return None;
        }
        let d: i64 = (c as u32 - 48) as i64;
        assert(0 <= d <= 9);
        if acc > (i64::MAX - d) / 10 {
            proof {
                let pre = st@.subrange(0, i + 1);
                assert(dec_val(pre) == acc as int * 10 + d as int);
                assert(acc as int * 10 + d as int > i64::MAX) by (nonlinear_arith)
                    requires
                        acc as int > (i64::MAX - d as int) / 10,
                        0 <= d <= 9,
                ;
                if all_digits(st@) {
                    lemma_dec_val_bounds(st@, i + 1);
                }
            }
            return None;
        }
        proof {
            assert(acc as int * 10 + d as int <= i64::MAX) by (nonlinear_arith)
                requires
                    acc as int <= (i64::MAX - d as int) / 10,
                    0 <= d <= 9,
                    acc >= 0,
            ;
        }
        acc = acc * 10 + d;
        i = i + 1;
    }
    proof {
        assert(st@.subrange(0, n as int) =~= st@);
    }
    Some(acc)
}

/// Tests whether `st` is a well-formed decimal floating-point literal.
fn check_number_lit(st: &str) -> (r: bool)
    ensures
        r == valid_number_lit(st@),
{
    let n = st.unicode_len();
    let mut dots: usize = 0;
    let mut saw_digit = false;
    let mut i: usize = 0;
    while i < n
        invariant
            0 <= i <= n,
            n == st@.len(),
            dots <= i,
            dots as int == count_dots(st@.subrange(0, i as int)),
            saw_digit == has_digit(st@.subrange(0, i as int)),
            all_number_chars(st@.subrange(0, i as int)),
        decreases n - i,
    {
        proof {
            assert(st@.subrange(0, i + 1).drop_last() =~= st@.subrange(0, i as int));
            assert(st@.subrange(0, i + 1).last() == st@[i as int]);
        }
        let c = st.get_char(i);
        if c == '.' {
            dots = dots + 1;
        } else if '0' <= c && c <= '9' {
            saw_digit = true;
        } else {
            assert(!all_number_chars(st@)) by {
                assert(!(spec_is_digit(st@[i as int]) || st@[i as int] == '.'));
            }
            return false;
        }
        proof {
            let pre = st@.subrange(0, i + 1);
            assert(has_digit(pre) == (has_digit(pre.drop_last()) || spec_is_digit(pre.last())));
            assert(forall|k: int|
                0 <= k < pre.len() ==> spec_is_digit(pre[k]) || pre[k] == '.') by {
                assert(forall|k: int|
                    0 <= k < pre.len() - 1 ==> spec_is_digit(pre.drop_last()[k]) || pre.drop_last()[k]
                        == '.');
            }
        }
        i = i + 1;
    }
    proof {
        assert(st@.subrange(0, n as int) =~= st@);
    }
    dots <= 1 && saw_digit
}

/// Casts one named capture by the fixed name-to-type table.
pub fn cast_value(name: &str, raw: &str) -> (r: Option<FieldValue>)
    ensures
        match r {
            Some(fv) => spec_cast(name@, raw@) == Some(fv@),
            None => spec_cast(name@, raw@) is None,
        },
{
    if str_eq(name, "status_code") {
        let st = strip_commas_exec(raw);
        match parse_digits_i64(st.as_str()) {
            Some(v) => Some(FieldValue::Integer(v)),
            None => None,
        }
    } else if str_eq(name, "rsync_sent") || str_eq(name, "rsync_received") || str_eq(
        name,
        "rsync_throughput",
    ) {
        let st = strip_commas_exec(raw);
        if check_number_lit(st.as_str()) {
            Some(FieldValue::Number(st))
        } else {
            None
        }
    } else {
        Some(FieldValue::Text(raw.to_owned()))
    }
}

/// Casts a whole capture list; `None` as soon as one capture fails.
pub fn cast_captures(caps: &Vec<(String, String)>) -> (r: Option<Vec<(String, FieldValue)>>)
    ensures
        match r {
            Some(v) => cast_all(pairs_view(caps@)) == Some(fields_view(v@)),
            None => cast_all(pairs_view(caps@)) is None,
        },
{
    let mut out: Vec<(String, FieldValue)> = Vec::new();
    let mut i: usize = 0;
    while i < caps.len()
        invariant
            0 <= i <= caps@.len(),
            cast_all(pairs_view(caps@).subrange(0, i as int)) == Some(fields_view(out@)),
        decreases caps@.len() - i,
    {
        proof {
            let pv = pairs_view(caps@);
            assert(pv.subrange(0, i + 1).drop_last() =~= pv.subrange(0, i as int));
            assert(pv.subrange(0, i + 1).last() == pv[i as int]);
        }
        match cast_value(caps[i].0.as_str(), caps[i].1.as_str()) {
            Some(fv) => {
                out.push((caps[i].0.clone(), fv));
                proof {
                    assert(fields_view(out@) =~~= cast_all(
                        pairs_view(caps@).subrange(0, i + 1),
                    ).unwrap());
                }
            },
            None => {
                proof {
                    lemma_cast_all_prefix_none(pairs_view(caps@), i + 1);
                }
                return None;
            },
        }
        i = i + 1;
    }
    proof {
        assert(pairs_view(caps@).subrange(0, caps@.len() as int) =~= pairs_view(caps@));
    }
    Some(out)
}

/// A failed cast anywhere in a prefix fails the whole list.
proof fn lemma_cast_all_prefix_none(caps: Seq<(Seq<char>, Seq<char>)>, i: int)
    requires
        0 <= i <= caps.len(),
        cast_all(caps.subrange(0, i)) is None,
    ensures
        cast_all(caps) is None,
    decreases caps.len() - i,
{
    if i == caps.len() {
        assert(caps.subrange(0, i) =~= caps);
    } else {
        assert(caps.subrange(0, i + 1).drop_last() =~= caps.subrange(0, i));
        lemma_cast_all_prefix_none(caps, i + 1);
    }
}

/// The pattern stage of the engine: first-match captures, then casts.
/// `None` reports a cast failure; a message no rule matches yields the
/// empty field list.
pub fn extract_fields(msg: &str) -> (r: Option<Vec<(String, FieldValue)>>)
    ensures
        match r {
            Some(v) => spec_extract_fields(msg@) == Some(fields_view(v@)),
            None => spec_extract_fields(msg@) is None,
        },
{
    match crate::grok::first_rule_captures(msg) {
        Some(caps) => cast_captures(&caps),
        None => {
            proof {
                assert(fields_view(Seq::<(String, FieldValue)>::empty()) =~= Seq::<
                    (Seq<char>, SpecFieldValue),
                >::empty());
            }
            Some(Vec::new())
        },
    }
}

} // verus!
