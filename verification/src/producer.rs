//! The envelope encoder: the producer side of the pipeline.
//!
//! An event is serialized to its payload text and framed together with its
//! shard id and kind tag into one opaque queue entry. Encoding either fully
//! succeeds or fails whole — a half-formed entry is never produced — and a
//! produced entry always splits back into its three fields and is never
//! mistaken for the shutdown sentinel.

use crate::error::Error;
use crate::event::Event;
use crate::frame::comma_free;
use crate::frame::encode_frame;
use crate::frame::frame_of;
use crate::frame::lemma_frame_not_sentinel;
use crate::frame::lemma_frame_round_trip;
use crate::frame::sentinel_spec;
use crate::frame::split_frame_spec;
use crate::gateway::dispatch_serialize_ok;
use crate::gateway::event_type_name;
use crate::gateway::serialize_dispatch;
use crate::gateway::wire_name_of;
use vstd::prelude::*;

verus! {

/// Encodes one event as a single queue entry. Encoding succeeds exactly
/// when the event's kind has a wire name and its payload serializes; a
/// success is the frame of the event's shard id, the kind's own wire name
/// and the serialized payload, so the decoder recovers the shard id and
/// kind losslessly, and is never the sentinel. A nameless kind is refused
/// with the unknown-kind error, a payload that will not serialize with the
/// codec error: nothing half-formed is ever produced.
pub fn encode_event(event: &Event) -> (r: Result<Vec<u8>, Error>)
    ensures
        r is Ok <==> (wire_name_of(event.dispatch_event.event_type) is Some
            && dispatch_serialize_ok(event.dispatch_event.event)),
        r matches Ok(v) ==> (wire_name_of(event.dispatch_event.event_type) matches Some(k)
            && k.len() > 0 && comma_free(k) && (exists|p: Seq<u8>|
            v@ == frame_of(event.shard_id, k, p))),
        r matches Ok(v) ==> split_frame_spec(v@) matches Some(f) && f.0 == event.shard_id,
        r matches Ok(v) ==> v@ != sentinel_spec(),
        wire_name_of(event.dispatch_event.event_type) is None ==> (r matches Err(e)
            && e is UnknownKind),
        (wire_name_of(event.dispatch_event.event_type) is Some && !dispatch_serialize_ok(
            event.dispatch_event.event,
        )) ==> (r matches Err(e) && e is Json),
{
    let name = match event_type_name(&event.dispatch_event.event_type) {
        Some(n) => n,
        None => {
            return Err(Error::UnknownKind);
        },
    };
    let payload = match serialize_dispatch(&event.dispatch_event.event) {
        Ok(p) => p,
        Err(e) => {
            return Err(e);
        },
    };
    let v = encode_frame(event.shard_id, name.as_slice(), payload.as_slice());
    proof {
        lemma_frame_round_trip(event.shard_id, name@, payload@);
        lemma_frame_not_sentinel(event.shard_id, name@, payload@);
        assert(comma_free(name@) && name@.len() > 0 && v@ == frame_of(
            event.shard_id,
            name@,
            payload@,
        ));
    }
    Ok(v)
}

} // verus!
