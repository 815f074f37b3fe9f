//! The metric record builder and the line-protocol serializer.
//!
//! A record carries the message instant, its tags (always the host, plus
//! the container image when one is known) and its typed fields.  A message
//! that produced no field at all yields no record.  The serializer writes
//! one wire line: measurement, comma-led tags, space, comma-separated
//! fields, space, millisecond timestamp; tag values escape comma, space and
//! equals, text fields are quoted with quote and backslash escapes, integer
//! fields carry the `i` suffix and floating-point fields stay bare
//! literals.

use vstd::prelude::*;

use crate::fields::{fields_view, FieldValue, SpecFieldValue};
use crate::grok::pairs_view;
use crate::structs::{Message, SpecMessage};

verus! {

/// One time-series record, ready for serialization.
pub struct MetricRecord {
    pub timestamp: i64,
    pub tags: Vec<(String, String)>,
    pub fields: Vec<(String, FieldValue)>,
}

/// The mathematical value of a [`MetricRecord`].
pub struct SpecRecord {
    pub timestamp: int,
    pub tags: Seq<(Seq<char>, Seq<char>)>,
    pub fields: Seq<(Seq<char>, SpecFieldValue)>,
}

impl View for MetricRecord {
    type V = SpecRecord;

    open spec fn view(&self) -> SpecRecord {
        SpecRecord {
            timestamp: self.timestamp as int,
            tags: pairs_view(self.tags@),
            fields: fields_view(self.fields@),
        }
    }
}

/// The record a message and its extraction stand for: `None` exactly when
/// pattern rules and prefix lookup both produced nothing.
pub open spec fn spec_build_record(
    m: SpecMessage,
    fields: Seq<(Seq<char>, SpecFieldValue)>,
    label: Option<Seq<char>>,
) -> Option<SpecRecord> {
    if fields.len() == 0 && label is None {
        None
    } else {
        Some(
            SpecRecord {
                timestamp: m.timestamp,
                tags: seq![("host"@, m.hostname)] + (match m.container {
                    Some(c) => match c.image {
                        Some(img) => seq![("container_image"@, img)],
                        None => Seq::empty(),
                    },
                    None => Seq::empty(),
                }),
                fields: fields + (match label {
                    Some(l) => seq![("warrior_action"@, SpecFieldValue::Text(l))],
                    None => Seq::empty(),
                }) + (match m.container {
                    Some(c) => match c.name {
                        Some(n) => seq![("container_name"@, SpecFieldValue::Text(n))],
                        None => Seq::empty(),
                    },
                    None => Seq::empty(),
                }),
            },
        )
    }
}

/// Assembles the record for one message: the extracted fields, then the
/// action label, then the container name; tagged with host and container
/// image.  Yields nothing when extraction and lookup both came up empty.
pub fn build_record(m: Message, fields: Vec<(String, FieldValue)>, label: Option<String>) -> (r:
    Option<MetricRecord>)
    ensures
        match r {
            Some(rec) => spec_build_record(
                m@,
                fields_view(fields@),
                crate::structs::opt_str_view(label),
            ) == Some(rec@),
            None => spec_build_record(
                m@,
                fields_view(fields@),
                crate::structs::opt_str_view(label),
            ) is None,
        },
{
    if fields.len() == 0 && label.is_none() {
        return None;
    }
    let mut flds = fields;
    match label {
        Some(l) => {
            flds.push((String::from_str("warrior_action"), FieldValue::Text(l)));
        },
        None => {},
    }
    let mut tags: Vec<(String, String)> = Vec::new();
    tags.push((String::from_str("host"), m.hostname));
    match m.container {
        Some(c) => {
            match c.image {
                Some(img) => {
                    tags.push((String::from_str("container_image"), img));
                },
                None => {},
            }
            match c.name {
                Some(n) => {
                    flds.push((String::from_str("container_name"), FieldValue::Text(n)));
                },
                None => {},
            }
        },
        None => {},
    }
    let rec = MetricRecord { timestamp: m.timestamp, tags, fields: flds };
    proof {
        assert(rec@.tags =~~= spec_build_record(
            m@,
            fields_view(fields@),
            crate::structs::opt_str_view(label),
        ).unwrap().tags);
        assert(rec@.fields =~~= spec_build_record(
            m@,
            fields_view(fields@),
            crate::structs::opt_str_view(label),
        ).unwrap().fields);
    }
    Some(rec)
}

// --- Serialization ---------------------------------------------------------
pub open spec fn digit_char(d: int) -> char {
    if d == 0 {
        '0'
    } else if d == 1 {
        '1'
    } else if d == 2 {
        '2'
    } else if d == 3 {
        '3'
    } else if d == 4 {
        '4'
    } else if d == 5 {
        '5'
    } else if d == 6 {
        '6'
    } else if d == 7 {
        '7'
    } else if d == 8 {
        '8'
    } else {
        '9'
    }
}

/// The decimal digits of a non-negative number.
pub open spec fn nat_digits(n: int) -> Seq<char>
    decreases n,
{
    if n < 10 {
        seq![digit_char(n)]
    } else {
        nat_digits(n / 10).push(digit_char(n % 10))
    }
}

/// The decimal text of an integer, with a leading minus when negative.
pub open spec fn int_text(i: int) -> Seq<char> {
    if i < 0 {
        seq!['-'] + nat_digits(-i)
    } else {
        nat_digits(i)
    }
}

/// A tag value with comma, space and equals escaped by a backslash.
pub open spec fn escape_tag_val(v: Seq<char>) -> Seq<char>
    decreases v.len(),
{
    if v.len() == 0 {
        v
    } else {
        escape_tag_val(v.drop_last()) + (if v.last() == ',' || v.last() == ' ' || v.last() == '=' {
            seq!['\\', v.last()]
        } else {
            seq![v.last()]
        })
    }
}

/// Text field contents with quote and backslash escaped by a backslash.
pub open spec fn escape_field_text(v: Seq<char>) -> Seq<char>
    decreases v.len(),
{
    if v.len() == 0 {
        v
    } else {
        escape_field_text(v.drop_last()) + (if v.last() == '"' || v.last() == '\\' {
            seq!['\\', v.last()]
        } else {
            seq![v.last()]
        })
    }
}

pub open spec fn tag_text(t: (Seq<char>, Seq<char>)) -> Seq<char> {
    ","@ + t.0 + "="@ + escape_tag_val(t.1)
}

pub open spec fn tags_text(tags: Seq<(Seq<char>, Seq<char>)>) -> Seq<char>
    decreases tags.len(),
{
    if tags.len() == 0 {
        Seq::empty()
    } else {
        tags_text(tags.drop_last()) + tag_text(tags.last())
    }
}

pub open spec fn field_value_text(v: SpecFieldValue) -> Seq<char> {
    match v {
        SpecFieldValue::Text(t) => seq!['"'] + escape_field_text(t) + seq!['"'],
        SpecFieldValue::Integer(n) => int_text(n).push('i'),
        SpecFieldValue::Number(l) => l,
    }
}

pub open spec fn field_text(f: (Seq<char>, SpecFieldValue)) -> Seq<char> {
    f.0 + "="@ + field_value_text(f.1)
}

pub open spec fn fields_text(fs: Seq<(Seq<char>, SpecFieldValue)>) -> Seq<char>
    decreases fs.len(),
{
    if fs.len() == 0 {
        Seq::empty()
    } else if fs.len() == 1 {
        field_text(fs[0])
    } else {
        fields_text(fs.drop_last()) + ","@ + field_text(fs.last())
    }
}

/// The full wire line of one record.
pub open spec fn spec_record_line(r: SpecRecord) -> Seq<char> {
    "metric"@ + tags_text(r.tags) + " "@ + fields_text(r.fields) + " "@ + int_text(r.timestamp)
}

/// One decimal digit as text.
fn digit_str(d: u64) -> (s: &'static str)
    requires
        d < 10,
    ensures
        s@ == seq![digit_char(d as int)],
{
    proof {
        reveal_strlit("0");
        reveal_strlit("1");
        reveal_strlit("2");
        reveal_strlit("3");
        reveal_strlit("4");
        reveal_strlit("5");
        reveal_strlit("6");
        reveal_strlit("7");
        reveal_strlit("8");
        reveal_strlit("9");
    }
    let s = match d {
        0 => "0",
        1 => "1",
        2 => "2",
        3 => "3",
        4 => "4",
        5 => "5",
        6 => "6",
        7 => "7",
        8 => "8",
        _ => "9",
    };
    proof {
        assert(s@ =~= seq![digit_char(d as int)]);
    }
    s
}

/// Appends the decimal digits of `n`.
fn append_u64(out: &mut String, n: u64)
    ensures
        final(out)@ == old(out)@ + nat_digits(n as int),
    decreases n,
{
    if n >= 10 {
        append_u64(out, n / 10);
        out.append(digit_str(n % 10));
        proof {
            assert(final(out)@ =~= old(out)@ + nat_digits(n as int));
        }
    } else {
        out.append(digit_str(n));
        proof {
            assert(final(out)@ =~= old(out)@ + nat_digits(n as int));
        }
    }
}

/// Appends the decimal text of a signed value.
fn append_i64(out: &mut String, v: i64)
    ensures
        final(out)@ == old(out)@ + int_text(v as int),
{
    if v < 0 {
        proof {
            reveal_strlit("-");
        }
        out.append("-");
        let mag: u64 = (-(v as i128)) as u64;
        proof {
            assert(0 <= -(v as i128) <= u64::MAX);
            assert(mag as int == -(v as int));
        }
        append_u64(out, mag);
        proof {
            assert(final(out)@ =~= old(out)@ + int_text(v as int));
        }
    } else {
        append_u64(out, v as u64);
    }
}

/// Appends a tag value, escaping comma, space and equals.
fn append_escaped_tag(out: &mut String, v: &str)
    ensures
        final(out)@ == old(out)@ + escape_tag_val(v@),
{
    let n = v.unicode_len();
    let mut i: usize = 0;
    while i < n
        invariant
            0 <= i <= n,
            n == v@.len(),
            out@ == old(out)@ + escape_tag_val(v@.subrange(0, i as int)),
        decreases n - i,
    {
        proof {
            assert(v@.subrange(0, i + 1).drop_last() =~= v@.subrange(0, i as int));
            assert(v@.subrange(0, i + 1).last() == v@[i as int]);
            reveal_strlit("\\");
        }
        let c = v.get_char(i);
        if c == ',' || c == ' ' || c == '=' {
            out.append("\\");
        }
        let piece = v.substring_char(i, i + 1);
        out.append(piece);
        proof {
            assert(out@ =~= old(out)@ + escape_tag_val(v@.subrange(0, i + 1)));
        }
        i = i + 1;
    }
    proof {
        assert(v@.subrange(0, n as int) =~= v@);
    }
}

/// Appends text field contents, escaping quote and backslash.
fn append_escaped_text(out: &mut String, v: &str)
    ensures
        final(out)@ == old(out)@ + escape_field_text(v@),
{
    let n = v.unicode_len();
    let mut i: usize = 0;
    while i < n
        invariant
            0 <= i <= n,
            n == v@.len(),
            out@ == old(out)@ + escape_field_text(v@.subrange(0, i as int)),
        decreases n - i,
    {
        proof {
            assert(v@.subrange(0, i + 1).drop_last() =~= v@.subrange(0, i as int));
            assert(v@.subrange(0, i + 1).last() == v@[i as int]);
            reveal_strlit("\\");
        }
        let c = v.get_char(i);
        if c == '"' || c == '\\' {
            out.append("\\");
        }
        let piece = v.substring_char(i, i + 1);
        out.append(piece);
        proof {
            assert(out@ =~= old(out)@ + escape_field_text(v@.subrange(0, i + 1)));
        }
        i = i + 1;
    }
    proof {
        assert(v@.subrange(0, n as int) =~= v@);
    }
}

/// Appends one field's value in its wire form.
fn append_field_value(out: &mut String, v: &FieldValue)
    ensures
        final(out)@ == old(out)@ + field_value_text(v@),
{
    match v {
        FieldValue::Text(t) => {
            proof {
                reveal_strlit("\"");
            }
            out.append("\"");
            append_escaped_text(out, t.as_str());
            out.append("\"");
            proof {
                assert(final(out)@ =~= old(out)@ + field_value_text(v@));
            }
        },
        FieldValue::Integer(n) => {
            append_i64(out, *n);
            proof {
                reveal_strlit("i");
            }
            out.append("i");
            proof {
                assert(final(out)@ =~= old(out)@ + field_value_text(v@));
            }
        },
        FieldValue::Number(l) => {
            out.append(l.as_str());
        },
    }
}

/// Serializes one record to its wire line.
pub fn record_line(rec: &MetricRecord) -> (out: String)
    ensures
        out@ == spec_record_line(rec@),
{
    let mut out = String::from_str("metric");
    let mut i: usize = 0;
    while i < rec.tags.len()
        invariant
            0 <= i <= rec.tags@.len(),
            out@ == "metric"@ + tags_text(pairs_view(rec.tags@).subrange(0, i as int)),
        decreases rec.tags@.len() - i,
    {
        proof {
            let tv = pairs_view(rec.tags@);
            assert(tv.subrange(0, i + 1).drop_last() =~= tv.subrange(0, i as int));
            assert(tv.subrange(0, i + 1).last() == tv[i as int]);
        }
        out.append(",");
        out.append(rec.tags[i].0.as_str());
        out.append("=");
        append_escaped_tag(&mut out, rec.tags[i].1.as_str());
        proof {
            assert(out@ =~= "metric"@ + tags_text(pairs_view(rec.tags@).subrange(0, i + 1)));
        }
        i = i + 1;
    }
    proof {
        assert(pairs_view(rec.tags@).subrange(0, rec.tags@.len() as int) =~= pairs_view(
            rec.tags@,
        ));
    }
    out.append(" ");
    let ghost head = "metric"@ + tags_text(pairs_view(rec.tags@)) + " "@;
    proof {
        assert(out@ =~= head);
    }
    let mut k: usize = 0;
    while k < rec.fields.len()
        invariant
            0 <= k <= rec.fields@.len(),
            out@ == head + fields_text(fields_view(rec.fields@).subrange(0, k as int)),
        decreases rec.fields@.len() - k,
    {
        proof {
            let fv = fields_view(rec.fields@);
            assert(fv.subrange(0, k + 1).drop_last() =~= fv.subrange(0, k as int));
            assert(fv.subrange(0, k + 1).last() == fv[k as int]);
        }
        if k > 0 {
            out.append(",");
        }
        out.append(rec.fields[k].0.as_str());
        out.append("=");
        append_field_value(&mut out, &rec.fields[k].1);
        proof {
            assert(out@ =~= head + fields_text(fields_view(rec.fields@).subrange(0, k + 1)));
        }
        k = k + 1;
    }
    proof {
        assert(fields_view(rec.fields@).subrange(0, rec.fields@.len() as int) =~= fields_view(
            rec.fields@,
        ));
    }
    out.append(" ");
    append_i64(&mut out, rec.timestamp);
    proof {
        assert(out@ =~= spec_record_line(rec@));
    }
    out
}

} // verus!
