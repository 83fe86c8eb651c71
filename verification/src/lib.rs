//! A process-local, type-indexed event dispatcher.
//!
//! Callers register a handler keyed by the kind of event it accepts, and
//! later emit an event value to invoke the matching handler. The registry
//! holds at most one handler per event kind; registering a second handler
//! for the same kind replaces the first, and emitting an event whose kind
//! was never registered is a defined, silent no-op.

mod event;
mod handler;
mod record;
mod router;
mod source;

pub use event::Event;
pub use event::EventKind;
pub use handler::lemma_wrapped_handler_transparent;
pub use handler::Handler;
pub use record::op_kind;
pub use record::op_value;
pub use record::Op;
pub use record::Recorder;
pub use record::Tally;
pub use router::lemma_register_overwrites;
pub use router::lemma_registered_handler_matches_kind;
pub use router::Router;
pub use source::Source;
