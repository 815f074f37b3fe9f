//! The envelope parser: raw extracted values to a validated [`Message`].
//!
//! The reader hands over whatever strings it found at the envelope's fixed
//! paths; this stage decides, for exactly which combinations a message
//! exists, and fails with a specific reason otherwise.  A message is never
//! partially populated: every success carries all required values.

use vstd::prelude::*;

use crate::structs::{
    BeatContainerMetadata, Message, ParseError, RawContainer, RawEnvelope, SpecContainerMetadata,
    SpecMessage, SpecRawContainer, SpecRawEnvelope,
};
use crate::timeparse::{parse_rfc3339_millis, rfc3339_millis_of};

verus! {

/// The container metadata a well-formed raw container stands for.
pub open spec fn spec_container_of(rc: SpecRawContainer) -> Option<SpecContainerMetadata> {
    match rc {
        SpecRawContainer::Object { id: Some(id), name, image } => Some(
            SpecContainerMetadata { id: id, name: name, image: image },
        ),
        _ => None,
    }
}

/// What the envelope parser returns for every raw envelope: the container
/// is vetted first, then the timestamp, host and message in that order.
pub open spec fn spec_parse_line(raw: SpecRawEnvelope) -> Result<SpecMessage, ParseError> {
    if raw.container is NotObject {
        Err(ParseError::BadContainer)
    } else if (raw.container matches SpecRawContainer::Object { id: None, .. }) {
        Err(ParseError::MissingContainerId)
    } else if raw.timestamp is None {
        Err(ParseError::MissingTimestamp)
    } else if rfc3339_millis_of(raw.timestamp.unwrap()) is None {
        Err(ParseError::BadTimestamp)
    } else if raw.hostname is None {
        Err(ParseError::MissingHostname)
    } else if raw.message is None {
        Err(ParseError::MissingMessage)
    } else {
        Ok(
            SpecMessage {
                timestamp: rfc3339_millis_of(raw.timestamp.unwrap()).unwrap() as int,
                hostname: raw.hostname.unwrap(),
                message: raw.message.unwrap(),
                container: spec_container_of(raw.container),
            },
        )
    }
}

/// Validates one raw envelope into a message, or reports why the line is
/// skipped.
pub fn parse_line(raw: RawEnvelope) -> (r: Result<Message, ParseError>)
    ensures
        r matches Ok(m) ==> spec_parse_line(raw@) == Ok::<SpecMessage, ParseError>(m@),
        r matches Err(e) ==> spec_parse_line(raw@) == Err::<SpecMessage, ParseError>(e),
{
    let RawEnvelope { timestamp, hostname, message, container } = raw;
    let container_meta: Option<BeatContainerMetadata> = match container {
        RawContainer::NotObject => {
            return Err(ParseError::BadContainer);
        },
        RawContainer::Object { id: None, .. } => {
            return Err(ParseError::MissingContainerId);
        },
        RawContainer::Object { id: Some(id), name, image } => Some(
            BeatContainerMetadata { id, name, image },
        ),
        RawContainer::Absent => None,
    };
    let ts_text = match timestamp {
        None => {
            return Err(ParseError::MissingTimestamp);
        },
        Some(t) => t,
    };
    let millis = match parse_rfc3339_millis(ts_text.as_str()) {
        None => {
            return Err(ParseError::BadTimestamp);
        },
        Some(ms) => ms,
    };
    let host = match hostname {
        None => {
            return Err(ParseError::MissingHostname);
        },
        Some(h) => h,
    };
    let msg = match message {
        None => {
            return Err(ParseError::MissingMessage);
        },
        Some(m) => m,
    };
    Ok(Message { timestamp: millis, hostname: host, message: msg, container: container_meta })
}

/// Round-trip law: when the required values are present, the container (if
/// any) carries its identifier, and the timestamp text is RFC 3339, the
/// parser succeeds and the message holds exactly the source values.
pub proof fn lemma_parse_line_exact(raw: SpecRawEnvelope)
    requires
        raw.timestamp is Some,
        rfc3339_millis_of(raw.timestamp.unwrap()) is Some,
        raw.hostname is Some,
        raw.message is Some,
        !(raw.container is NotObject),
        raw.container matches SpecRawContainer::Object { id, .. } ==> id is Some,
    ensures
        spec_parse_line(raw) is Ok,
        spec_parse_line(raw).unwrap().timestamp == rfc3339_millis_of(
            raw.timestamp.unwrap(),
        ).unwrap() as int,
        spec_parse_line(raw).unwrap().hostname == raw.hostname.unwrap(),
        spec_parse_line(raw).unwrap().message == raw.message.unwrap(),
        spec_parse_line(raw).unwrap().container == spec_container_of(raw.container),
{
}

/// Rejection law: an envelope that lacks any of `@timestamp`, `host.name`
/// or `message` never yields a message.
pub proof fn lemma_parse_line_missing_required(raw: SpecRawEnvelope)
    requires
        raw.timestamp is None || raw.hostname is None || raw.message is None,
    ensures
        spec_parse_line(raw) is Err,
{
}

} // verus!
