//! The envelope decoder: the consumer side of the pipeline.
//!
//! Entries come off the queue in FIFO order. Each one is classified by the
//! same case analysis: the shutdown sentinel ends the stream; an entry that
//! does not frame, or whose kind tag has no decoder, is skipped with a
//! warning; a registered kind whose payload fails to parse is an item-level
//! error; everything else yields a typed event. One bad entry never stops
//! the stream — only the sentinel, or running out of entries, does.

use crate::error::Error;
use crate::event::Event;
use crate::frame::parse_event_str;
use crate::frame::sentinel_spec;
use crate::frame::split_frame_spec;
use crate::gateway::decode_dispatch;
use crate::gateway::dispatch_decode_ok;
use crate::registry::Registry;
use crate::registry::reg_lookup;
use twilight_model::gateway::event::EventType;
use vstd::prelude::*;

verus! {

/// What one queue entry decodes to.
pub enum Outcome {
    /// The entry is the shutdown sentinel: the stream ends cleanly here.
    Shutdown,
    /// The entry does not split into shard id, kind tag and payload; it is
    /// logged with its raw text and skipped.
    Malformed,
    /// The frame is sound but its kind tag has no decoder in the registry;
    /// logged and skipped, the registry just has not been extended yet.
    UnknownKind { shard_id: u64, kind: Vec<u8> },
    /// The kind is registered but its parser rejected the payload: an
    /// item-level error value the stream survives.
    DecodeFailed { shard_id: u64, kind: Vec<u8>, error: Error },
    /// A fully decoded, typed event.
    Ready(Event),
}

/// The outcome owed to `entry` under the registry bindings `reg`: the case
/// analysis of the decode algorithm — sentinel first, then the frame split,
/// then the registry lookup, then the kind's own parser.
pub open spec fn outcome_for(reg: Seq<(Seq<u8>, EventType)>, entry: Seq<u8>, o: Outcome) -> bool {
    if entry == sentinel_spec() {
        o is Shutdown
    } else {
        match split_frame_spec(entry) {
            None => o is Malformed,
            Some(f) => match reg_lookup(reg, f.1) {
                None => o matches Outcome::UnknownKind { shard_id, kind } && shard_id == f.0
                    && kind@ == f.1,
                Some(t) => if dispatch_decode_ok(f.1, f.2) {
                    o matches Outcome::Ready(e) && e.shard_id == f.0
                        && e.dispatch_event.event_type == t
                } else {
                    o matches Outcome::DecodeFailed { shard_id, kind, error } && shard_id == f.0
                        && kind@ == f.1 && error is Json
                },
            },
        }
    }
}

/// Round-trip fidelity of the pipeline: an entry framed from a shard id, a
/// comma-free kind tag and any payload — commas inside the payload included
/// — is never mistaken for the sentinel or for a malformed frame, and when
/// its kind is registered and its payload parses, the consumer yields an
/// event that carries the original shard id and the registered kind.
pub proof fn lemma_round_trip_outcome(
    reg: Seq<(Seq<u8>, EventType)>,
    shard_id: u64,
    kind: Seq<u8>,
    payload: Seq<u8>,
    o: Outcome,
)
    requires
        crate::frame::comma_free(kind),
        outcome_for(reg, crate::frame::frame_of(shard_id, kind, payload), o),
    ensures
        !(o is Shutdown),
        !(o is Malformed),
        (reg_lookup(reg, kind) is Some && dispatch_decode_ok(kind, payload)) ==> (o matches Outcome::Ready(e)
            && e.shard_id == shard_id
            && Some(e.dispatch_event.event_type) == reg_lookup(reg, kind)),
{
    crate::frame::lemma_frame_round_trip(shard_id, kind, payload);
    crate::frame::lemma_frame_not_sentinel(shard_id, kind, payload);
}

/// Classifies one queue entry, decoding it when its kind is registered and
/// its payload parses.
pub fn process_entry(registry: &Registry, entry: &[u8]) -> (o: Outcome)
    ensures
        outcome_for(registry@, entry@, o),
{
    if crate::frame::is_sentinel(entry) {
        return Outcome::Shutdown;
    }
    let (shard_id, kind, payload) = match parse_event_str(entry) {
        Some(f) => f,
        None => {
            return Outcome::Malformed;
        },
    };
    let event_type = match registry.lookup(kind) {
        Some(t) => t,
        None => {
            return Outcome::UnknownKind {
                shard_id,
                kind: vstd::slice::slice_to_vec(kind),
            };
        },
    };
    match decode_dispatch(kind, payload) {
        Ok(event) => Outcome::Ready(Event::new(shard_id, event_type, event)),
        Err(error) => Outcome::DecodeFailed {
            shard_id,
            kind: vstd::slice::slice_to_vec(kind),
            error,
        },
    }
}

/// What consuming a stretch of queue entries produced, in pop order.
pub struct Consumed {
    /// One outcome per entry examined, FIFO.
    pub outcomes: Vec<Outcome>,
    /// True when the stream ended on the shutdown sentinel; false when it
    /// ended by exhausting the entries at hand.
    pub clean_shutdown: bool,
}

/// Decodes queue entries in FIFO order until the shutdown sentinel or the
/// end of the queue: one outcome per entry examined. A malformed entry, an
/// unknown kind or a parse failure never stops the stream; the sentinel
/// does, and no entry past it is examined.
pub fn get_events(registry: &Registry, entries: &Vec<Vec<u8>>) -> (c: Consumed)
    ensures
        c.outcomes@.len() <= entries@.len(),
        forall|i: int| 0 <= i < c.outcomes@.len() ==> (#[trigger] entries@[i])@ != sentinel_spec(),
        c.clean_shutdown <==> (c.outcomes@.len() < entries@.len() && entries@[c.outcomes@.len() as int]@
            == sentinel_spec()),
        !c.clean_shutdown ==> c.outcomes@.len() == entries@.len(),
        forall|i: int| 0 <= i < c.outcomes@.len() ==> outcome_for(
            registry@,
            entries@[i]@,
            #[trigger] c.outcomes@[i],
        ),
{
    let mut outcomes: Vec<Outcome> = Vec::new();
    let mut i: usize = 0;
    while i < entries.len()
        invariant
            i <= entries@.len(),
            outcomes@.len() == i,
            forall|j: int| 0 <= j < i ==> (#[trigger] entries@[j])@ != sentinel_spec(),
            forall|j: int| 0 <= j < i ==> outcome_for(
                registry@,
                entries@[j]@,
                #[trigger] outcomes@[j],
            ),
        decreases entries@.len() - i,
    {
        let o = process_entry(registry, entries[i].as_slice());
        match o {
            Outcome::Shutdown => {
                return Consumed { outcomes, clean_shutdown: true };
            },
            _ => {},
        }
        outcomes.push(o);
        i = i + 1;
    }
    Consumed { outcomes, clean_shutdown: false }
}

} // verus!
