use vstd::prelude::*;

verus! {

/// The identity of an event type: the key under which handlers are
/// registered and events are dispatched. Two distinct event types never
/// share a kind, and a value's kind never changes, so the kind plays the
/// role that a runtime type identity token plays in an untyped registry.
#[derive(Clone, Copy, Debug, PartialEq, Eq, Structural)]
pub enum EventKind {
    /// A single integer.
    Int,
    /// A pair of integers.
    Pair,
    /// A piece of text.
    Text,
    /// An integer wrapped in one nominal record type.
    Mark,
    /// An integer wrapped in another, distinct nominal record type.
    Note,
}

/// A value that can be dispatched through the router. Each variant is one
/// event type; the variant tag stands in for the value's runtime type, and
/// dispatch is keyed on it alone.
#[derive(Debug, PartialEq, Eq)]
pub enum Event {
    /// A single integer.
    Int(i32),
    /// A pair of integers.
    Pair(i32, i32),
    /// A piece of text.
    Text(String),
    /// An integer wrapped in one nominal record type.
    Mark(i32),
    /// An integer wrapped in another, distinct nominal record type.
    Note(i32),
}

impl Event {
    /// The event type of this value.
    pub open spec fn kind_spec(&self) -> EventKind {
        match self {
            Event::Int(_) => EventKind::Int,
            Event::Pair(_, _) => EventKind::Pair,
            Event::Text(_) => EventKind::Text,
            Event::Mark(_) => EventKind::Mark,
            Event::Note(_) => EventKind::Note,
        }
    }

    /// The event type of this value: the dispatch key for `emit`.
    #[verifier::when_used_as_spec(kind_spec)]
    pub fn kind(&self) -> (k: EventKind)
        ensures
            k == self.kind_spec(),
    {
        match self {
            Event::Int(_) => EventKind::Int,
            Event::Pair(_, _) => EventKind::Pair,
            Event::Text(_) => EventKind::Text,
            Event::Mark(_) => EventKind::Mark,
            Event::Note(_) => EventKind::Note,
        }
    }
}

} // verus!
