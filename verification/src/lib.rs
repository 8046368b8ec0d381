//! Relays gateway events from shard connections to downstream consumers
//! through a durable FIFO queue.
//!
//! The producer frames each event — shard id, kind tag, serialized payload —
//! into one opaque queue entry (`producer`, `frame`); the consumer splits
//! entries back at the first two delimiters only, resolves the kind tag in
//! an open registry, and runs that kind's parser to recover a typed event
//! (`consumer`, `registry`). A reserved sentinel entry ends the stream
//! cleanly; any other bad entry is an item-level condition the stream
//! survives (`error`). Decoded events are offered one by one to a per-kind
//! handler whose failures never block later events (`dispatch`). Queue I/O
//! itself stays outside the library: callers hand entries in and take typed
//! events out.

pub mod consumer;
pub mod dispatch;
pub mod error;
pub mod event;
pub mod frame;
pub mod gateway;
pub mod producer;
pub mod registry;
