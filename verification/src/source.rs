use vstd::prelude::*;

use crate::event::Event;
use crate::event::EventKind;
use crate::handler::Handler;

verus! {

/// The per-event-kind registration record: the wrapper the router stores
/// one of for each registered kind. A source owns exactly one handler and
/// is itself a handler for the same kind, forwarding every invocation to
/// the handler it holds, so a source is interchangeable with the handler
/// it was built from wherever a handler is expected.
pub struct Source<H> {
    handler: H,
}

impl<H: Handler> View for Source<H> {
    type V = H;

    /// A source is modeled by the handler it holds.
    closed spec fn view(&self) -> H {
        self.handler
    }
}

impl<H: Handler> Source<H> {
    /// Wrap a handler. Construction cannot fail and changes nothing about
    /// the handler's model.
    pub fn new(handler: H) -> (s: Source<H>)
        ensures
            s@ == handler,
    {
        Source { handler }
    }

    /// The handler this source holds, without invoking it.
    pub fn handler(&self) -> (h: &H)
        ensures
            *h == self@,
    {
        &self.handler
    }
}

/// A source forwards transparently: it accepts what its handler accepts,
/// has received what its handler has received, and invoking it invokes its
/// handler.
impl<H: Handler> Handler for Source<H> {
    open spec fn accepts(&self) -> EventKind {
        self@.accepts()
    }

    open spec fn received(&self) -> Seq<Event> {
        self@.received()
    }

    fn event_kind(&self) -> (k: EventKind) {
        self.handler.event_kind()
    }

    fn call(&mut self, args: Event) {
        self.handler.call(args);
    }
}

} // verus!
