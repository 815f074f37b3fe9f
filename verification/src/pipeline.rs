//! The per-line pipeline and per-file statistics.
//!
//! For one decoded line the driver parses the envelope, runs the pattern
//! engine and the prefix lookup, builds the record and serializes it.  The
//! outcome says exactly what the caller writes (one wire line) or why the
//! line produced nothing.  All decisions are per line; the caller owns the
//! surrounding streams.

use vstd::prelude::*;

use crate::fields::{extract_fields, spec_extract_fields, FieldValue, SpecFieldValue};
use crate::grok::pairs_view;
use crate::prefix::{lookup_prefix_label, prefix_label};
use crate::record::{build_record, record_line, spec_build_record, spec_record_line};
use crate::structs::{opt_str_view, Message, ParseError, RawEnvelope, SpecMessage, SpecRawEnvelope};

verus! {

/// The wire line a message yields, or nothing: nothing when a matching
/// rule's capture failed its cast, and nothing when pattern rules and
/// prefix lookup both produced no field.
pub open spec fn spec_grok_message(m: SpecMessage, table: Seq<(Seq<char>, Seq<char>)>) -> Option<
    Seq<char>,
> {
    match spec_extract_fields(m.message) {
        None => None,
        Some(fs) => match spec_build_record(m, fs, prefix_label(m.message, table)) {
            None => None,
            Some(rec) => Some(spec_record_line(rec)),
        },
    }
}

/// Runs the extraction engine and the record builder on one message and
/// serializes the result, handing back `None` when the line is suppressed.
pub fn grok_message(data: Message, grok_fields: &Vec<(String, String)>) -> (r: Option<String>)
    ensures
        r is Some <==> spec_grok_message(data@, pairs_view(grok_fields@)) is Some,
        r matches Some(line) ==> spec_grok_message(data@, pairs_view(grok_fields@)) == Some(line@),
{
    let fields: Vec<(String, FieldValue)> = match extract_fields(data.message.as_str()) {
        Some(f) => f,
        None => {
            return None;
        },
    };
    let label = lookup_prefix_label(data.message.as_str(), grok_fields);
    proof {
        assert(opt_str_view(label) == prefix_label(data.message@, pairs_view(grok_fields@)));
    }
    match build_record(data, fields, label) {
        Some(rec) => Some(record_line(&rec)),
        None => None,
    }
}

/// What one raw envelope came to.
pub enum LineOutcome {
    /// A serialized record the caller appends to the output stream.
    Emit(String),
    /// The envelope was invalid: the line is skipped for this reason.
    Skip(ParseError),
    /// A matching rule's capture failed its numeric cast: the line is
    /// skipped.
    CastFailed,
    /// Extraction produced no field at all: output is suppressed.
    NoFields,
}

/// The mathematical value of a [`LineOutcome`].
pub enum SpecLineOutcome {
    Emit(Seq<char>),
    Skip(ParseError),
    CastFailed,
    NoFields,
}

impl View for LineOutcome {
    type V = SpecLineOutcome;

    open spec fn view(&self) -> SpecLineOutcome {
        match self {
            LineOutcome::Emit(s) => SpecLineOutcome::Emit(s@),
            LineOutcome::Skip(e) => SpecLineOutcome::Skip(*e),
            LineOutcome::CastFailed => SpecLineOutcome::CastFailed,
            LineOutcome::NoFields => SpecLineOutcome::NoFields,
        }
    }
}

/// The outcome of the whole per-line pipeline on one raw envelope.
pub open spec fn spec_process_envelope(
    raw: SpecRawEnvelope,
    table: Seq<(Seq<char>, Seq<char>)>,
) -> SpecLineOutcome {
    match crate::envelope::spec_parse_line(raw) {
        Err(e) => SpecLineOutcome::Skip(e),
        Ok(m) => match spec_extract_fields(m.message) {
            None => SpecLineOutcome::CastFailed,
            Some(fs) => match spec_build_record(m, fs, prefix_label(m.message, table)) {
                None => SpecLineOutcome::NoFields,
                Some(rec) => SpecLineOutcome::Emit(spec_record_line(rec)),
            },
        },
    }
}

/// Drives one raw envelope through parse, extraction, build and
/// serialization.
pub fn process_envelope(raw: RawEnvelope, grok_fields: &Vec<(String, String)>) -> (r: LineOutcome)
    ensures
        r@ == spec_process_envelope(raw@, pairs_view(grok_fields@)),
{
    let message = match crate::envelope::parse_line(raw) {
        Ok(m) => m,
        Err(e) => {
            return LineOutcome::Skip(e);
        },
    };
    let fields: Vec<(String, FieldValue)> = match extract_fields(message.message.as_str()) {
        Some(f) => f,
        None => {
            return LineOutcome::CastFailed;
        },
    };
    let label = lookup_prefix_label(message.message.as_str(), grok_fields);
    proof {
        assert(opt_str_view(label) == prefix_label(message.message@, pairs_view(grok_fields@)));
    }
    match build_record(message, fields, label) {
        Some(rec) => LineOutcome::Emit(record_line(&rec)),
        None => LineOutcome::NoFields,
    }
}

/// Suppression law: a message whose pattern extraction is empty and whose
/// prefix lookup finds nothing yields no wire line at all.
pub proof fn lemma_no_fields_no_record(m: SpecMessage, table: Seq<(Seq<char>, Seq<char>)>)
    requires
        spec_extract_fields(m.message) == Some(Seq::<(Seq<char>, SpecFieldValue)>::empty()),
        prefix_label(m.message, table) is None,
    ensures
        spec_grok_message(m, table) is None,
{
}

/// Independence law: the prefix lookup is additive to the pattern rules.
/// Whenever it finds a label and no capture failed its cast, a record is
/// emitted, whether or not any pattern rule also matched.
pub proof fn lemma_prefix_label_contributes(m: SpecMessage, table: Seq<(Seq<char>, Seq<char>)>)
    requires
        spec_extract_fields(m.message) is Some,
        prefix_label(m.message, table) is Some,
    ensures
        spec_grok_message(m, table) is Some,
{
}

/// Determinism law: the per-line outcome is a function of the envelope
/// values and the prefix table alone, so a re-run over the same decoded
/// lines with the same tables reproduces the same wire lines.
pub proof fn lemma_process_deterministic(
    raw: SpecRawEnvelope,
    table: Seq<(Seq<char>, Seq<char>)>,
    r1: SpecLineOutcome,
    r2: SpecLineOutcome,
)
    requires
        r1 == spec_process_envelope(raw, table),
        r2 == spec_process_envelope(raw, table),
    ensures
        r1 == r2,
{
}

/// The wire lines one file's envelopes come to, in input order; a line
/// whose outcome emits nothing leaves no trace in the output.
pub open spec fn spec_emitted_lines(
    raws: Seq<SpecRawEnvelope>,
    table: Seq<(Seq<char>, Seq<char>)>,
) -> Seq<Seq<char>>
    decreases raws.len(),
{
    if raws.len() == 0 {
        Seq::empty()
    } else {
        spec_emitted_lines(raws.drop_last(), table) + (match spec_process_envelope(
            raws.last(),
            table,
        ) {
            SpecLineOutcome::Emit(line) => seq![line],
            _ => Seq::empty(),
        })
    }
}

/// Idempotence law over a whole file: two runs over the same decoded
/// envelopes with the same prefix table emit byte-identical output.
pub proof fn lemma_rerun_is_byte_identical(
    raws: Seq<SpecRawEnvelope>,
    table: Seq<(Seq<char>, Seq<char>)>,
    out1: Seq<Seq<char>>,
    out2: Seq<Seq<char>>,
)
    requires
        out1 == spec_emitted_lines(raws, table),
        out2 == spec_emitted_lines(raws, table),
    ensures
        out1 == out2,
{
}

/// Per-file counters the driver reports when a file completes: lines that
/// parsed, and decoded bytes seen.  Both saturate rather than wrap.
pub struct FileStats {
    pub lines: u64,
    pub bytes: u64,
}

impl FileStats {
    pub fn new() -> (s: FileStats)
        ensures
            s.lines == 0,
            s.bytes == 0,
    {
        FileStats { lines: 0, bytes: 0 }
    }

    /// Accounts one decoded line's byte length.
    pub fn add_bytes(&mut self, n: usize)
        ensures
            final(self).bytes as int == if old(self).bytes + n <= u64::MAX {
                old(self).bytes + n
            } else {
                u64::MAX as int
            },
            final(self).lines == old(self).lines,
    {
        let nn = n as u64;
        if self.bytes <= u64::MAX - nn {
            self.bytes = self.bytes + nn;
        } else {
            self.bytes = u64::MAX;
        }
    }

    /// Accounts one line that parsed into a message.
    pub fn add_parsed_line(&mut self)
        ensures
            final(self).lines as int == if old(self).lines + 1 <= u64::MAX {
                old(self).lines + 1int
            } else {
                u64::MAX as int
            },
            final(self).bytes == old(self).bytes,
    {
        if self.lines < u64::MAX {
            self.lines = self.lines + 1;
        }
    }
}

} // verus!
