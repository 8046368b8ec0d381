//! The dispatch scheduler's decision core.
//!
//! Business logic is an extension point: a handler selected by an event's
//! kind, given the shard id and the typed payload, returning success or a
//! handler-specific error. The scheduler offers every decoded event to the
//! handler in pop order and records one outcome per event; a failure is
//! caught as a value and never prevents the remaining events from being
//! handled. Running the handlers concurrently (fire and forget) is the
//! embedder's affair; the ordering guarantee is only the pop order in which
//! events are offered here.

use crate::event::Event;
use twilight_model::gateway::event::DispatchEvent;
use twilight_model::gateway::event::EventType;
use vstd::prelude::*;

verus! {

/// The per-kind extension point: business logic for one decoded event.
pub trait Handler {
    /// Reacts to one event; an `Err` is the handler's own failure, which
    /// the scheduler records and otherwise ignores.
    fn handle(&mut self, shard_id: u64, event_type: &EventType, event: &DispatchEvent) -> Result<
        (),
        String,
    >;
}

/// Offers every event to the handler, in order, and returns one outcome per
/// event: a failing handler never keeps a later event from being handled.
pub fn dispatch_all<H: Handler>(handler: &mut H, events: &Vec<Event>) -> (r: Vec<
    Result<(), String>,
>)
    ensures
        r@.len() == events@.len(),
{
    let mut results: Vec<Result<(), String>> = Vec::new();
    let mut i: usize = 0;
    while i < events.len()
        invariant
            i <= events@.len(),
            results@.len() == i,
        decreases events@.len() - i,
    {
        let e = &events[i];
        let outcome = handler.handle(
            e.shard_id,
            &e.dispatch_event.event_type,
            &e.dispatch_event.event,
        );
        results.push(outcome);
        i = i + 1;
    }
    results
}

} // verus!
