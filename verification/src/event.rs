//! The unit of work the pipeline carries: one typed gateway event.

use twilight_model::gateway::event::DispatchEvent;
use twilight_model::gateway::event::EventType;
use vstd::prelude::*;

verus! {

/// A kind tag together with the typed payload it selects. The tag uniquely
/// determines the payload's schema; the decoder guarantees the two agree.
pub struct DispatchEventWrapper {
    pub event_type: EventType,
    pub event: DispatchEvent,
}

/// A decoded event and the shard connection it originated from.
pub struct Event {
    pub shard_id: u64,
    pub dispatch_event: DispatchEventWrapper,
}

impl Event {
    /// Packs the three parts of a decoded event.
    pub fn new(shard_id: u64, event_type: EventType, event: DispatchEvent) -> (r: Event)
        ensures
            r.shard_id == shard_id,
            r.dispatch_event.event_type == event_type,
            r.dispatch_event.event == event,
    {
        Event { shard_id, dispatch_event: DispatchEventWrapper { event_type, event } }
    }
}

} // verus!
