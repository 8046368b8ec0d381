use sushii_processor::consumer::Outcome;
use sushii_processor::consumer::get_events;
use sushii_processor::consumer::process_entry;
use sushii_processor::error::Error;
use sushii_processor::event::Event;
use sushii_processor::frame::sentinel;
use sushii_processor::producer::encode_event;
use sushii_processor::registry::Registry;
use twilight_model::channel::Message;
use twilight_model::channel::message::MessageType;
use twilight_model::gateway::event::DispatchEvent;
use twilight_model::gateway::event::EventType;
use twilight_model::gateway::payload::incoming::MessageCreate;
use twilight_model::gateway::payload::incoming::TypingStart;
use twilight_model::id::Id;
use twilight_model::user::User;
use twilight_model::util::Timestamp;

fn default_registry() -> Registry {
    let mut registry = Registry::new();
    registry.register(b"TYPING_START".to_vec(), EventType::TypingStart);
    registry.register(b"MESSAGE_CREATE".to_vec(), EventType::MessageCreate);
    registry
}

fn typing_start() -> TypingStart {
    TypingStart {
        channel_id: Id::new(2),
        guild_id: None,
        member: None,
        timestamp: 30,
        user_id: Id::new(3),
    }
}

fn sample_user() -> User {
    User {
        accent_color: None,
        avatar: None,
        avatar_decoration: None,
        avatar_decoration_data: None,
        banner: None,
        bot: false,
        discriminator: 1,
        email: None,
        flags: None,
        global_name: None,
        id: Id::new(3),
        locale: None,
        mfa_enabled: None,
        name: "tester".to_owned(),
        premium_type: None,
        primary_guild: None,
        public_flags: None,
        system: None,
        verified: None,
    }
}

fn sample_message() -> Message {
    Message {
        activity: None,
        application: None,
        application_id: None,
        attachments: Vec::new(),
        author: sample_user(),
        call: None,
        channel_id: Id::new(2),
        components: Vec::new(),
        content: "test message".to_owned(),
        edited_timestamp: None,
        embeds: Vec::new(),
        flags: None,
        guild_id: None,
        id: Id::new(4),
        interaction: None,
        interaction_metadata: None,
        kind: MessageType::Regular,
        member: None,
        mention_channels: Vec::new(),
        mention_everyone: false,
        mention_roles: Vec::new(),
        mentions: Vec::new(),
        message_snapshots: Vec::new(),
        pinned: false,
        poll: None,
        reactions: Vec::new(),
        reference: None,
        referenced_message: None,
        role_subscription_data: None,
        sticker_items: Vec::new(),
        timestamp: Timestamp::from_micros(1_580_608_922_020_000).expect("nonzero timestamp"),
        thread: None,
        tts: false,
        webhook_id: None,
    }
}

fn typing_entry(shard_id: u64) -> Vec<u8> {
    let payload = serde_json::to_string(&typing_start()).expect("payload serializes");
    format!("{},TYPING_START,{}", shard_id, payload).into_bytes()
}

#[test]
fn decodes_typing_start_entry() {
    let registry = default_registry();
    let outcome = process_entry(&registry, typing_entry(9).as_slice());
    match outcome {
        Outcome::Ready(event) => {
            assert_eq!(event.shard_id, 9);
            assert_eq!(event.dispatch_event.event_type, EventType::TypingStart);
            assert_eq!(
                event.dispatch_event.event,
                DispatchEvent::TypingStart(Box::new(typing_start()))
            );
        }
        other => panic!("expected a decoded event, got {}", describe_outcome(&other)),
    }
}

fn describe_outcome(outcome: &Outcome) -> &'static str {
    match outcome {
        Outcome::Shutdown => "shutdown",
        Outcome::Malformed => "malformed",
        Outcome::UnknownKind { .. } => "unknown kind",
        Outcome::DecodeFailed { .. } => "decode failed",
        Outcome::Ready(_) => "ready",
    }
}

#[test]
fn skips_malformed_then_processes_next() {
    let registry = default_registry();
    let entries = vec![b"not-enough-commas".to_vec(), typing_entry(1)];
    let consumed = get_events(&registry, &entries);
    assert!(!consumed.clean_shutdown);
    assert_eq!(consumed.outcomes.len(), 2);
    assert!(matches!(consumed.outcomes[0], Outcome::Malformed));
    assert!(matches!(consumed.outcomes[1], Outcome::Ready(_)));
}

#[test]
fn skips_unknown_kind_then_processes_next() {
    let registry = default_registry();
    let entries = vec![b"5,UNKNOWN_KIND,{\"a\":1},x".to_vec(), typing_entry(1)];
    let consumed = get_events(&registry, &entries);
    assert_eq!(consumed.outcomes.len(), 2);
    match &consumed.outcomes[0] {
        Outcome::UnknownKind { shard_id, kind } => {
            assert_eq!(*shard_id, 5);
            assert_eq!(kind, b"UNKNOWN_KIND");
        }
        other => panic!("expected unknown kind, got {}", describe_outcome(other)),
    }
    assert!(matches!(consumed.outcomes[1], Outcome::Ready(_)));
}

#[test]
fn parse_failure_is_item_level() {
    let registry = default_registry();
    let entries = vec![b"1,TYPING_START,this is not json".to_vec(), typing_entry(2)];
    let consumed = get_events(&registry, &entries);
    assert_eq!(consumed.outcomes.len(), 2);
    match &consumed.outcomes[0] {
        Outcome::DecodeFailed { shard_id, kind, error } => {
            assert_eq!(*shard_id, 1);
            assert_eq!(kind, b"TYPING_START");
            assert!(matches!(error, Error::Json(_)));
        }
        other => panic!("expected a decode failure, got {}", describe_outcome(other)),
    }
    assert!(matches!(consumed.outcomes[1], Outcome::Ready(_)));
}

#[test]
fn sentinel_terminates_stream() {
    let registry = default_registry();
    let entries = vec![typing_entry(1), sentinel(), typing_entry(2)];
    let consumed = get_events(&registry, &entries);
    assert!(consumed.clean_shutdown);
    assert_eq!(consumed.outcomes.len(), 1);
    assert!(matches!(consumed.outcomes[0], Outcome::Ready(_)));
}

#[test]
fn sentinel_first_examines_nothing() {
    let registry = default_registry();
    let entries = vec![sentinel(), typing_entry(1)];
    let consumed = get_events(&registry, &entries);
    assert!(consumed.clean_shutdown);
    assert_eq!(consumed.outcomes.len(), 0);
}

#[test]
fn without_sentinel_stream_is_exhausted() {
    let registry = default_registry();
    let entries = vec![typing_entry(1), typing_entry(2)];
    let consumed = get_events(&registry, &entries);
    assert!(!consumed.clean_shutdown);
    assert_eq!(consumed.outcomes.len(), 2);
}

#[test]
fn message_create_scenario() {
    let registry = default_registry();
    let message = DispatchEvent::MessageCreate(Box::new(MessageCreate(sample_message())));
    let produced = Event::new(1, EventType::MessageCreate, message.clone());
    let entry = encode_event(&produced).expect("encoding should succeed");
    assert!(entry.starts_with(b"1,MESSAGE_CREATE,"));

    let entries = vec![entry, sentinel()];
    let consumed = get_events(&registry, &entries);
    assert!(consumed.clean_shutdown);
    assert_eq!(consumed.outcomes.len(), 1);
    match &consumed.outcomes[0] {
        Outcome::Ready(event) => {
            assert_eq!(event.shard_id, 1);
            assert_eq!(event.dispatch_event.event_type, EventType::MessageCreate);
            assert_eq!(event.dispatch_event.event, message);
        }
        other => panic!("expected a decoded event, got {}", describe_outcome(other)),
    }
}

#[test]
fn typed_round_trip() {
    let registry = default_registry();
    let original = DispatchEvent::TypingStart(Box::new(typing_start()));
    let produced = Event::new(7, EventType::TypingStart, original.clone());
    let entry = encode_event(&produced).expect("encoding should succeed");
    match process_entry(&registry, entry.as_slice()) {
        Outcome::Ready(event) => {
            assert_eq!(event.shard_id, 7);
            assert_eq!(event.dispatch_event.event_type, EventType::TypingStart);
            assert_eq!(event.dispatch_event.event, original);
        }
        other => panic!("expected a decoded event, got {}", describe_outcome(&other)),
    }
}

#[test]
fn encoder_frames_with_kind_name() {
    let produced = Event::new(3, EventType::TypingStart, DispatchEvent::TypingStart(
        Box::new(typing_start()),
    ));
    let entry = encode_event(&produced).expect("encoding should succeed");
    assert!(entry.starts_with(b"3,TYPING_START,"));
}

#[test]
fn encoder_refuses_nameless_kind() {
    let produced = Event::new(0, EventType::GatewayHeartbeat, DispatchEvent::Resumed);
    match encode_event(&produced) {
        Err(Error::UnknownKind) => {}
        Err(_) => panic!("expected the unknown-kind error"),
        Ok(_) => panic!("a kind without a wire name must not encode"),
    }
}

#[test]
fn registered_kind_unknown_upstream_fails_decode() {
    let mut registry = Registry::new();
    registry.register(b"BOGUS_KIND".to_vec(), EventType::TypingStart);
    let outcome = process_entry(&registry, b"1,BOGUS_KIND,{}");
    match outcome {
        Outcome::DecodeFailed { error, .. } => assert!(matches!(error, Error::Json(_))),
        other => panic!("expected a decode failure, got {}", describe_outcome(&other)),
    }
}

#[test]
fn registry_keeps_first_binding() {
    let mut registry = Registry::new();
    registry.register(b"TYPING_START".to_vec(), EventType::TypingStart);
    registry.register(b"TYPING_START".to_vec(), EventType::MessageCreate);
    assert_eq!(
        registry.lookup(b"TYPING_START"),
        Some(EventType::TypingStart)
    );
}

#[test]
fn registry_lookup_unknown_is_none() {
    let registry = default_registry();
    assert_eq!(registry.lookup(b"NO_SUCH_KIND"), None);
    assert!(!registry.contains_kind(b"NO_SUCH_KIND"));
    assert!(registry.contains_kind(b"TYPING_START"));
}

#[test]
fn error_descriptions() {
    assert_eq!(Error::MalformedFrame.describe(), "malformed frame");
    assert_eq!(Error::UnknownKind.describe(), "unknown event kind");
    assert_eq!(
        Error::Json("boom".to_owned()).describe(),
        "payload codec error"
    );
}
