use vstd::hash_map::HashMapWithView;
use vstd::prelude::*;

use crate::event::Event;
use crate::event::EventKind;
use crate::handler::Handler;
use crate::source::Source;

verus! {

broadcast use vstd::std_specs::hash::group_hash_axioms;

/// The storage key of an event kind. Distinct kinds never collide on a key
/// and a kind always maps to the same key, so the key is a faithful stand-in
/// for the kind inside the registry's hashed mapping.
spec fn kind_key_spec(k: EventKind) -> u64 {
    match k {
        EventKind::Int => 0,
        EventKind::Pair => 1,
        EventKind::Text => 2,
        EventKind::Mark => 3,
        EventKind::Note => 4,
    }
}

/// The event kind a storage key stands for, if any.
spec fn key_kind(key: u64) -> Option<EventKind> {
    if key == 0 {
        Some(EventKind::Int)
    } else if key == 1 {
        Some(EventKind::Pair)
    } else if key == 2 {
        Some(EventKind::Text)
    } else if key == 3 {
        Some(EventKind::Mark)
    } else if key == 4 {
        Some(EventKind::Note)
    } else {
        None
    }
}

#[verifier::when_used_as_spec(kind_key_spec)]
fn kind_key(k: EventKind) -> (key: u64)
    ensures
        key == kind_key_spec(k),
{
    match k {
        EventKind::Int => 0,
        EventKind::Pair => 1,
        EventKind::Text => 2,
        EventKind::Mark => 3,
        EventKind::Note => 4,
    }
}

proof fn lemma_kind_key_bijective()
    ensures
        forall|k: EventKind| #[trigger] key_kind(kind_key_spec(k)) == Some(k),
        forall|key: u64| #[trigger] key_kind(key) is Some ==> kind_key_spec(
            key_kind(key)->Some_0,
        ) == key,
{
}

/// The registry: a mapping from event kind to the one source registered for
/// that kind. Registration (`on`) inserts, overwriting any prior entry for
/// the same kind; dispatch (`emit`) looks the kind up and invokes the source
/// found there, or does nothing if none is registered.
#[verifier::reject_recursive_types(H)]
pub struct Router<H> {
    handlers: HashMapWithView<u64, Source<H>>,
}

impl<H: Handler> Router<H> {
    /// The registry's model: which handler is registered for which event
    /// kind.
    pub closed spec fn table(&self) -> Map<EventKind, H> {
        Map::new(
            |k: EventKind| self.handlers@.contains_key(kind_key_spec(k)),
            |k: EventKind| self.handlers@[kind_key_spec(k)]@,
        )
    }

    /// Every stored entry sits under the key of the kind its handler
    /// accepts: the registry never holds a handler under the wrong kind, so
    /// recovering a stored source at its own kind cannot fail.
    pub closed spec fn wf(&self) -> bool {
        forall|key: u64| #[trigger]
            self.handlers@.contains_key(key) ==> {
                &&& key_kind(key) is Some
                &&& self.handlers@[key]@.accepts() == key_kind(key)->Some_0
            }
    }

    /// Create an empty registry: no kind has a handler.
    pub fn new() -> (r: Router<H>)
        ensures
            r.wf(),
            r.table() == Map::<EventKind, H>::empty(),
    {
        let r = Router { handlers: HashMapWithView::new() };
        proof {
            assert(r.table() =~= Map::<EventKind, H>::empty());
        }
        r
    }

    /// Register `handler` for the event kind it accepts. Registration
    /// always succeeds and overwrites any handler previously registered for
    /// that same kind; no other kind's entry changes.
    pub fn on(&mut self, handler: H)
        requires
            old(self).wf(),
        ensures
            final(self).wf(),
            final(self).table() == old(self).table().insert(handler.accepts(), handler),
    {
        let ghost h = handler;
        let key = kind_key(handler.event_kind());
        let source = Source::new(handler);
        self.handlers.insert(key, source);
        proof {
            lemma_kind_key_bijective();
            assert(self.table() =~= old(self).table().insert(h.accepts(), h));
        }
    }

    /// Dispatch `event` to the handler registered for its kind, if any.
    ///
    /// If no handler is registered for the event's kind, nothing happens:
    /// the registry is unchanged and no handler receives anything. If one
    /// is, that handler — and only that handler — receives exactly `event`,
    /// and the set of registered kinds is unchanged.
    pub fn emit(&mut self, event: Event)
        requires
            old(self).wf(),
        ensures
            final(self).wf(),
            !old(self).table().contains_key(event.kind()) ==> final(self).table() == old(
                self,
            ).table(),
            old(self).table().contains_key(event.kind()) ==> {
                &&& final(self).table().dom() == old(self).table().dom()
                &&& final(self).table()[event.kind()].received() == old(self).table()[
                    event.kind()
                ].received().push(event)
                &&& final(self).table()[event.kind()].accepts() == old(self).table()[
                    event.kind()
                ].accepts()
                &&& forall|k: EventKind|
                    k != event.kind() && old(self).table().contains_key(k)
                        ==> final(self).table()[k] == old(self).table()[k]
            },
    {
        let kind = event.kind();
        let key = kind_key(kind);
        match self.handlers.remove(&key) {
            None => {
                proof {
                    assert(self.table() =~= old(self).table());
                }
            },
            Some(mut source) => {
                if source.event_kind() == kind {
                    source.call(event);
                }
                self.handlers.insert(key, source);
                proof {
                    lemma_kind_key_bijective();
                    assert(self.table().dom() =~= old(self).table().dom());
                }
            },
        }
    }

    /// Look up the source registered for event kind `kind` without invoking
    /// it: `Some` holding the registered handler's source if one is
    /// registered, `None` if not.
    pub fn source(&self, kind: EventKind) -> (r: Option<&Source<H>>)
        requires
            self.wf(),
        ensures
            match r {
                Some(s) => self.table().contains_key(kind) && s@ == self.table()[kind],
                None => !self.table().contains_key(kind),
            },
    {
        let key = kind_key(kind);
        match self.handlers.get(&key) {
            Some(source) => {
                if source.event_kind() == kind {
                    Some(source)
                } else {
                    proof {
                        lemma_kind_key_bijective();
                    }
                    None
                }
            },
            None => None,
        }
    }
}

impl<H: Handler> Default for Router<H> {
    /// The default registry is the empty one.
    fn default() -> (r: Self)
        ensures
            r.wf(),
            r.table() == Map::<EventKind, H>::empty(),
    {
        Router::new()
    }
}

/// In a well-formed registry, the handler registered under an event kind
/// accepts exactly that kind: an entry is only ever stored under the kind
/// its handler was built for, so recovering a stored handler at its own
/// kind cannot fail.
pub proof fn lemma_registered_handler_matches_kind<H: Handler>(r: &Router<H>, kind: EventKind)
    requires
        r.wf(),
        r.table().contains_key(kind),
    ensures
        r.table()[kind].accepts() == kind,
{
    lemma_kind_key_bijective();
}

/// Registering a handler for a kind and then another handler for the same
/// kind leaves only the second registration: the registry after both is the
/// registry after the second alone, whatever was registered in between for
/// that kind.
pub proof fn lemma_register_overwrites<H: Handler>(table: Map<EventKind, H>, first: H, second: H)
    requires
        first.accepts() == second.accepts(),
    ensures
        table.insert(first.accepts(), first).insert(second.accepts(), second) == table.insert(
            second.accepts(),
            second,
        ),
{
    assert(table.insert(first.accepts(), first).insert(second.accepts(), second) =~= table.insert(
        second.accepts(),
        second,
    ));
}

} // verus!
