use vstd::prelude::*;

use crate::event::Event;
use crate::event::EventKind;
use crate::handler::Handler;

verus! {

/// A handler that keeps every value it is invoked with, verbatim. One
/// recorder consumes one event kind, chosen at construction.
pub struct Recorder {
    kind: EventKind,
    seen: Vec<Event>,
}

impl Recorder {
    /// A recorder for event kind `kind` that has seen nothing yet.
    pub fn new(kind: EventKind) -> (r: Recorder)
        ensures
            r.accepts() == kind,
            r.received() == Seq::<Event>::empty(),
    {
        Recorder { kind, seen: Vec::new() }
    }

    /// Every value this recorder has been invoked with, in order.
    pub fn seen(&self) -> (v: &Vec<Event>)
        ensures
            v@ == self.received(),
    {
        &self.seen
    }
}

impl Handler for Recorder {
    closed spec fn accepts(&self) -> EventKind {
        self.kind
    }

    closed spec fn received(&self) -> Seq<Event> {
        self.seen@
    }

    fn event_kind(&self) -> (k: EventKind) {
        self.kind
    }

    fn call(&mut self, args: Event) {
        self.seen.push(args);
    }
}

/// What a tally computes from each event it consumes.
#[derive(Clone, Copy, Debug, PartialEq, Eq, Structural)]
pub enum Op {
    /// Twice the integer of an integer event.
    Double,
    /// The product of the two integers of a pair event.
    Product,
}

/// The event kind an operation consumes.
pub open spec fn op_kind(op: Op) -> EventKind {
    match op {
        Op::Double => EventKind::Int,
        Op::Product => EventKind::Pair,
    }
}

/// The value an operation computes from an event of its kind.
pub open spec fn op_value(op: Op, e: Event) -> i64 {
    match op {
        Op::Double => match e {
            Event::Int(i) => (2 * (i as int)) as i64,
            _ => 0,
        },
        Op::Product => match e {
            Event::Pair(a, b) => ((a as int) * (b as int)) as i64,
            _ => 0,
        },
    }
}

/// A handler that records a value computed from each event it is invoked
/// with: twice the integer, or the product of the pair, by its operation.
pub struct Tally {
    op: Op,
    values: Vec<i64>,
    log: Ghost<Seq<Event>>,
}

impl Tally {
    /// The operation this tally applies to each event.
    pub closed spec fn operation(&self) -> Op {
        self.op
    }

    /// The values this tally has recorded, in order.
    pub closed spec fn recorded(&self) -> Seq<i64> {
        self.values@
    }

    /// A tally applying `op` that has recorded nothing yet.
    pub fn new(op: Op) -> (t: Tally)
        ensures
            t.operation() == op,
            t.accepts() == op_kind(op),
            t.received() == Seq::<Event>::empty(),
            t.recorded() == Seq::<i64>::empty(),
    {
        Tally { op, values: Vec::new(), log: Ghost(Seq::empty()) }
    }

    /// The recorded values, in the order of the events that produced them.
    pub fn values(&self) -> (v: &Vec<i64>)
        ensures
            v@ == self.recorded(),
    {
        &self.values
    }
}

impl Handler for Tally {
    closed spec fn accepts(&self) -> EventKind {
        op_kind(self.op)
    }

    closed spec fn received(&self) -> Seq<Event> {
        self.log@
    }

    fn event_kind(&self) -> (k: EventKind) {
        match self.op {
            Op::Double => EventKind::Int,
            Op::Product => EventKind::Pair,
        }
    }

    /// Beyond receiving the event, a tally records exactly the value its
    /// operation computes from it, and its operation does not change.
    fn call(&mut self, args: Event)
        ensures
            final(self).recorded() == old(self).recorded().push(
                op_value(old(self).operation(), args),
            ),
            final(self).operation() == old(self).operation(),
    {
        self.log = Ghost(self.log@.push(args));
        let value: i64 = match self.op {
            Op::Double => match &args {
                Event::Int(i) => {
                    let x: i64 = *i as i64;
                    2 * x
                },
                _ => 0,
            },
            Op::Product => match &args {
                Event::Pair(a, b) => {
                    let x: i64 = *a as i64;
                    let y: i64 = *b as i64;
                    proof {
                        assert((-0x8000_0000) * 0x8000_0000 <= (x as int) * (y as int) <= 0x8000_0000
                            * 0x8000_0000) by (nonlinear_arith)
                            requires
                                -0x8000_0000 <= x as int <= 0x7fff_ffff,
                                -0x8000_0000 <= y as int <= 0x7fff_ffff,
                        ;
                    }
                    x * y
                },
                _ => 0,
            },
        };
        self.values.push(value);
    }
}

} // verus!
