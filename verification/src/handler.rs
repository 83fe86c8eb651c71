use vstd::prelude::*;

use crate::event::Event;
use crate::event::EventKind;

verus! {

/// The handler capability: a unit of behavior that consumes values of
/// exactly one event kind and returns nothing.
///
/// Each handler carries a ghost model of itself: `accepts()` is the one
/// event kind it consumes, and `received()` is the sequence of every value
/// it has been invoked with, in order. `call` appends exactly its argument
/// to that sequence, so "the handler was invoked with this value" is an
/// observable fact of the handler's model, and the router's contracts can
/// promise exactly which handler saw which value.
pub trait Handler: Sized {
    /// The one event kind this handler consumes.
    spec fn accepts(&self) -> EventKind;

    /// Every value this handler has been invoked with, in order.
    spec fn received(&self) -> Seq<Event>;

    /// The event kind this handler consumes, as a runtime value.
    fn event_kind(&self) -> (k: EventKind)
        ensures
            k == self.accepts(),
    ;

    /// Invoke the handler with one event value. The value must be of the
    /// kind the handler accepts; the handler receives exactly that value,
    /// and what it accepts does not change.
    fn call(&mut self, args: Event)
        requires
            old(self).accepts() == args.kind(),
        ensures
            final(self).received() == old(self).received().push(args),
            final(self).accepts() == old(self).accepts(),
    ;
}

/// A handler behind an owning indirection forwards transparently: the
/// wrapper consumes the same kind and has received the same values as the
/// handler it wraps, and invoking it invokes the wrapped handler.
impl<T: Handler> Handler for Box<T> {
    open spec fn accepts(&self) -> EventKind {
        (**self).accepts()
    }

    open spec fn received(&self) -> Seq<Event> {
        (**self).received()
    }

    fn event_kind(&self) -> (k: EventKind) {
        (**self).event_kind()
    }

    fn call(&mut self, args: Event) {
        (**self).call(args);
    }
}

/// A wrapped handler behaves identically to the handler it wraps: it
/// accepts the same event kind and has received exactly the same values.
/// Together with the wrapper's `call`, which forwards to the wrapped
/// handler, registering and invoking the wrapper is indistinguishable from
/// registering and invoking the handler itself.
pub proof fn lemma_wrapped_handler_transparent<T: Handler>(wrapper: Box<T>)
    ensures
        wrapper.accepts() == (*wrapper).accepts(),
        wrapper.received() == (*wrapper).received(),
{
}

} // verus!
