//! The error taxonomy of the pipeline.
//!
//! Every variant is recoverable at the level of one entry or one event:
//! the consumer logs it and goes on to the next entry. Only the shutdown
//! sentinel — which is not an error — ends the stream.

use vstd::prelude::*;

verus! {

/// An entry-level failure of the envelope pipeline.
#[derive(Debug)]
pub enum Error {
    /// The entry does not split into shard id, kind tag and payload.
    MalformedFrame,
    /// The kind tag is not in the decoder registry.
    UnknownKind,
    /// The payload text could not be parsed as its kind demands, or an
    /// event's payload could not be serialized; holds the codec's message.
    Json(String),
}

impl Error {
    /// A short description of the variant, for log lines.
    pub fn describe(&self) -> (s: &'static str)
        ensures
            self is MalformedFrame ==> s@ == "malformed frame"@,
            self is UnknownKind ==> s@ == "unknown event kind"@,
            self is Json ==> s@ == "payload codec error"@,
    {
        match self {
            Error::MalformedFrame => "malformed frame",
            Error::UnknownKind => "unknown event kind",
            Error::Json(_) => "payload codec error",
        }
    }
}

} // verus!
