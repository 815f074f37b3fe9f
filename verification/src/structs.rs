//! The data model: one message per log line, with optional container
//! metadata, plus the raw envelope values handed in by the JSON reader and
//! the per-line parse failures.

use vstd::prelude::*;

verus! {

/// Container metadata attached to a message when the source envelope
/// carries a container object.  The identifier is mandatory; name and image
/// are independently optional.
#[derive(Debug)]
pub struct BeatContainerMetadata {
    pub id: String,
    pub name: Option<String>,
    pub image: Option<String>,
}

/// The mathematical value of [`BeatContainerMetadata`].
pub struct SpecContainerMetadata {
    pub id: Seq<char>,
    pub name: Option<Seq<char>>,
    pub image: Option<Seq<char>>,
}

/// The view of an optional owned string.
pub open spec fn opt_str_view(o: Option<String>) -> Option<Seq<char>> {
    match o {
        Some(s) => Some(s@),
        None => None,
    }
}

impl View for BeatContainerMetadata {
    type V = SpecContainerMetadata;

    open spec fn view(&self) -> SpecContainerMetadata {
        SpecContainerMetadata {
            id: self.id@,
            name: opt_str_view(self.name),
            image: opt_str_view(self.image),
        }
    }
}

/// One fully parsed log line.  The timestamp is the instant of the
/// envelope's RFC 3339 text, counted in milliseconds since the Unix epoch.
#[derive(Debug)]
pub struct Message {
    pub timestamp: i64,
    pub hostname: String,
    pub message: String,
    pub container: Option<BeatContainerMetadata>,
}

/// The mathematical value of a [`Message`].
pub struct SpecMessage {
    pub timestamp: int,
    pub hostname: Seq<char>,
    pub message: Seq<char>,
    pub container: Option<SpecContainerMetadata>,
}

impl View for Message {
    type V = SpecMessage;

    open spec fn view(&self) -> SpecMessage {
        SpecMessage {
            timestamp: self.timestamp as int,
            hostname: self.hostname@,
            message: self.message@,
            container: match self.container {
                Some(c) => Some(c@),
                None => None,
            },
        }
    }
}

/// Why one line failed to parse.  Every failure is per line: the caller
/// skips the line and continues with the next one.
#[derive(Clone, Copy, Debug, PartialEq, Eq, Structural)]
pub enum ParseError {
    /// The envelope has a `container` member that is not an object.
    BadContainer,
    /// The container object lacks its mandatory string `id`.
    MissingContainerId,
    /// No string at `@timestamp`.
    MissingTimestamp,
    /// The timestamp text is not a well-formed RFC 3339 instant.
    BadTimestamp,
    /// No string at `host.name`.
    MissingHostname,
    /// No string at `message`.
    MissingMessage,
}

/// The container part of a raw envelope, as the JSON reader found it.
pub enum RawContainer {
    /// The envelope has no `container` member.
    Absent,
    /// The envelope has a `container` member that is not an object.
    NotObject,
    /// A container object with whatever string members were present.
    Object { id: Option<String>, name: Option<String>, image: Option<String> },
}

/// The mathematical value of a [`RawContainer`].
pub enum SpecRawContainer {
    Absent,
    NotObject,
    Object { id: Option<Seq<char>>, name: Option<Seq<char>>, image: Option<Seq<char>> },
}

impl View for RawContainer {
    type V = SpecRawContainer;

    open spec fn view(&self) -> SpecRawContainer {
        match self {
            RawContainer::Absent => SpecRawContainer::Absent,
            RawContainer::NotObject => SpecRawContainer::NotObject,
            RawContainer::Object { id, name, image } => SpecRawContainer::Object {
                id: opt_str_view(*id),
                name: opt_str_view(*name),
                image: opt_str_view(*image),
            },
        }
    }
}

/// The string values a reader found at the envelope's fixed paths, before
/// any validation: `@timestamp`, `host.name`, `message` and the container
/// members.  A member that is absent or not a string is `None`.
pub struct RawEnvelope {
    pub timestamp: Option<String>,
    pub hostname: Option<String>,
    pub message: Option<String>,
    pub container: RawContainer,
}

/// The mathematical value of a [`RawEnvelope`].
pub struct SpecRawEnvelope {
    pub timestamp: Option<Seq<char>>,
    pub hostname: Option<Seq<char>>,
    pub message: Option<Seq<char>>,
    pub container: SpecRawContainer,
}

impl View for RawEnvelope {
    type V = SpecRawEnvelope;

    open spec fn view(&self) -> SpecRawEnvelope {
        SpecRawEnvelope {
            timestamp: opt_str_view(self.timestamp),
            hostname: opt_str_view(self.hostname),
            message: opt_str_view(self.message),
            container: self.container@,
        }
    }
}

} // verus!
