use sushii_processor::dispatch::Handler;
use sushii_processor::dispatch::dispatch_all;
use sushii_processor::event::Event;
use twilight_model::gateway::event::DispatchEvent;
use twilight_model::gateway::event::EventType;
use twilight_model::gateway::payload::incoming::TypingStart;
use twilight_model::id::Id;

struct RecordingHandler {
    seen: Vec<EventType>,
}

impl Handler for RecordingHandler {
    fn handle(
        &mut self,
        _shard_id: u64,
        event_type: &EventType,
        _event: &DispatchEvent,
    ) -> Result<(), String> {
        self.seen.push(*event_type);
        if *event_type == EventType::TypingStart {
            Err("this handler always fails".to_owned())
        } else {
            Ok(())
        }
    }
}

fn typing_event(shard_id: u64) -> Event {
    let typing = TypingStart {
        channel_id: Id::new(2),
        guild_id: None,
        member: None,
        timestamp: 30,
        user_id: Id::new(3),
    };
    Event::new(
        shard_id,
        EventType::TypingStart,
        DispatchEvent::TypingStart(Box::new(typing)),
    )
}

fn resumed_event(shard_id: u64) -> Event {
    Event::new(shard_id, EventType::Resumed, DispatchEvent::Resumed)
}

#[test]
fn failing_handler_does_not_block_later_events() {
    let mut handler = RecordingHandler { seen: Vec::new() };
    let events = vec![typing_event(1), resumed_event(2), typing_event(3)];
    let results = dispatch_all(&mut handler, &events);
    assert_eq!(results.len(), 3);
    assert!(results[0].is_err());
    assert!(results[1].is_ok());
    assert!(results[2].is_err());
    assert_eq!(
        handler.seen,
        vec![EventType::TypingStart, EventType::Resumed, EventType::TypingStart]
    );
}

#[test]
fn dispatch_offers_every_event_in_order() {
    let mut handler = RecordingHandler { seen: Vec::new() };
    let events = vec![resumed_event(1), resumed_event(2)];
    let results = dispatch_all(&mut handler, &events);
    assert_eq!(results.len(), 2);
    assert!(results.iter().all(|r| r.is_ok()));
    assert_eq!(handler.seen.len(), 2);
}

#[test]
fn dispatch_of_nothing_is_empty() {
    let mut handler = RecordingHandler { seen: Vec::new() };
    let events: Vec<Event> = Vec::new();
    let results = dispatch_all(&mut handler, &events);
    assert!(results.is_empty());
}
