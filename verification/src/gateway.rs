//! The trusted boundary to the gateway model crate and the JSON codec.
//!
//! Everything the library believes about the outside world is collected
//! here: the declarations of the outside types that run through the
//! pipeline, and one wrapper per outside call the logic makes.

use crate::error::Error;
use crate::frame::comma_free;
use serde::de::DeserializeSeed;
use twilight_model::gateway::event::DispatchEvent;
use twilight_model::gateway::event::DispatchEventWithTypeDeserializer;
use twilight_model::gateway::event::EventType;
use vstd::prelude::*;

verus! {

#[verifier::external_type_specification]
#[verifier::external_body]
pub struct ExEventType(EventType);

#[verifier::external_type_specification]
#[verifier::external_body]
pub struct ExDispatchEvent(DispatchEvent);

/// Whether resolving `kind` to its payload parser and running that parser
/// over `payload` succeeds. Decoding reads nothing but the two byte strings,
/// so its success is a function of them alone.
pub uninterp spec fn dispatch_decode_ok(kind: Seq<u8>, payload: Seq<u8>) -> bool;

/// The wire name of a kind: what `EventType::name` returns, as bytes. The
/// name is a `const fn` match on the variant, so it is a function of the
/// kind value alone; the gateway-lifecycle kinds have none.
pub uninterp spec fn wire_name_of(event_type: EventType) -> Option<Seq<u8>>;

/// Whether serializing an event's payload succeeds. Success is decided by
/// the shape of the value, not by the order its maps happen to iterate in,
/// so it is a function of the event value alone. (The JSON bytes themselves
/// are not a function of the value: map-valued payloads serialize in hasher
/// order, which varies per process, so no name is given to them.)
pub uninterp spec fn dispatch_serialize_ok(event: DispatchEvent) -> bool;

/// Relies on `EventType::name`, named `wire_name_of`: every name it returns
/// is a nonempty upper-case ASCII literal without a comma; the
/// gateway-lifecycle kinds, which never appear in a dispatch event, have no
/// name and give `None`.
#[verifier::external_body]
pub(crate) fn event_type_name(event_type: &EventType) -> (r: Option<Vec<u8>>)
    ensures
        r matches Some(v) ==> v@.len() > 0 && comma_free(v@),
        r matches Some(v) ==> wire_name_of(*event_type) == Some(v@),
        r is None ==> wire_name_of(*event_type) is None,
{
    match event_type.name() {
        Some(s) => Some(s.as_bytes().to_vec()),
        None => None,
    }
}

/// Relies on `serde_json::to_vec` and the `Serialize` impl of
/// `DispatchEvent`: serialization either fails whole or yields the JSON
/// text of the event, which is never empty; its success is named
/// `dispatch_serialize_ok`.
#[verifier::external_body]
pub(crate) fn serialize_dispatch(event: &DispatchEvent) -> (r: Result<Vec<u8>, Error>)
    ensures
        r is Ok <==> dispatch_serialize_ok(*event),
        r matches Ok(v) ==> v@.len() > 0,
        r matches Err(e) ==> e is Json,
{
    match serde_json::to_vec(event) {
        Ok(v) => Ok(v),
        Err(e) => Err(Error::Json(e.to_string())),
    }
}

/// Relies on `DispatchEventWithTypeDeserializer`: it resolves the kind tag
/// to that kind's own parser and runs it over the payload text, a pure
/// function of the two byte strings, whose success `dispatch_decode_ok`
/// names. An unrecognized tag or an unparsable payload is an error value,
/// never a panic.
#[verifier::external_body]
pub(crate) fn decode_dispatch(kind: &[u8], payload: &[u8]) -> (r: Result<DispatchEvent, Error>)
    ensures
        r is Ok <==> dispatch_decode_ok(kind@, payload@),
        r matches Err(e) ==> e is Json,
{
    let kind_text = String::from_utf8_lossy(kind);
    let payload_text = String::from_utf8_lossy(payload);
    let seed = DispatchEventWithTypeDeserializer::new(&kind_text);
    let mut deserializer = serde_json::Deserializer::from_str(&payload_text);
    match seed.deserialize(&mut deserializer) {
        Ok(event) => Ok(event),
        Err(e) => Err(Error::Json(e.to_string())),
    }
}

} // verus!
