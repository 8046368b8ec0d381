//! The decoder registry: an open mapping from kind tags to decoders.
//!
//! The registry is populated once at startup and only read afterwards;
//! adding support for a new upstream kind means adding one entry here,
//! never touching the decode logic. Each entry binds a kind tag to the
//! typed kind whose parser the decoder will run.

use crate::frame::bytes_eq;
use twilight_model::gateway::event::EventType;
use vstd::prelude::*;

verus! {

/// One registered kind: the wire tag and the typed kind it selects.
pub struct RegistryEntry {
    pub kind: Vec<u8>,
    pub event_type: EventType,
}

/// The kind→decoder mapping, built at startup, read-only afterwards.
pub struct Registry {
    entries: Vec<RegistryEntry>,
}

/// The binding of `kind` in `entries`: the first entry with that tag.
pub open spec fn reg_lookup(entries: Seq<(Seq<u8>, EventType)>, kind: Seq<u8>) -> Option<EventType>
    decreases entries.len(),
{
    if entries.len() == 0 {
        None
    } else if entries[0].0 == kind {
        Some(entries[0].1)
    } else {
        reg_lookup(entries.drop_first(), kind)
    }
}

impl View for Registry {
    type V = Seq<(Seq<u8>, EventType)>;

    closed spec fn view(&self) -> Seq<(Seq<u8>, EventType)> {
        self.entries@.map_values(|e: RegistryEntry| (e.kind@, e.event_type))
    }
}

impl Registry {
    /// An empty registry: no kind has a decoder yet.
    pub fn new() -> (r: Registry)
        ensures
            r@ == Seq::<(Seq<u8>, EventType)>::empty(),
    {
        let r = Registry { entries: Vec::new() };
        proof {
            assert(r@ =~= Seq::<(Seq<u8>, EventType)>::empty());
        }
        r
    }

    /// Adds one kind→decoder binding. A tag that is already bound keeps its
    /// original binding: no entry is ever mutated or removed.
    pub fn register(&mut self, kind: Vec<u8>, event_type: EventType)
        ensures
            final(self)@ == if reg_lookup(old(self)@, kind@) is Some {
                old(self)@
            } else {
                old(self)@.push((kind@, event_type))
            },
    {
        let ghost k = kind@;
        if self.lookup(kind.as_slice()).is_some() {
            return ;
        }
        self.entries.push(RegistryEntry { kind, event_type });
        proof {
            assert(self@ =~= old(self)@.push((k, event_type)));
        }
    }

    /// The typed kind bound to `kind`, when the registry knows the tag.
    pub fn lookup(&self, kind: &[u8]) -> (r: Option<EventType>)
        ensures
            r == reg_lookup(self@, kind@),
    {
        let mut i: usize = 0;
        proof {
            assert(self@.skip(0) =~= self@);
        }
        while i < self.entries.len()
            invariant
                i <= self.entries@.len(),
                self@.len() == self.entries@.len(),
                reg_lookup(self@, kind@) == reg_lookup(self@.skip(i as int), kind@),
            decreases self.entries@.len() - i,
        {
            let hit = bytes_eq(self.entries[i].kind.as_slice(), kind);
            proof {
                assert(self@.skip(i as int)[0] == self@[i as int]);
            }
            if hit {
                return Some(self.entries[i].event_type);
            }
            proof {
                assert(self@.skip(i as int).drop_first() =~= self@.skip(i as int + 1));
            }
            i = i + 1;
        }
        proof {
            assert(self@.skip(i as int) =~= Seq::<(Seq<u8>, EventType)>::empty());
        }
        None
    }

    /// Whether the registry has a decoder for `kind`.
    pub fn contains_kind(&self, kind: &[u8]) -> (r: bool)
        ensures
            r == (reg_lookup(self@, kind@) is Some),
    {
        self.lookup(kind).is_some()
    }
}

} // verus!
