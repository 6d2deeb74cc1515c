//! An event-handling combinator library: values flow into *sinks*, sinks can
//! be adapted (`with`), filtered (`filtered`), both at once (`with_filtered`),
//! fanned out to many independently owned handles over one shared base sink,
//! and bridged into a live-value cell or an unbounded ordered event queue.

pub mod channel;
pub mod counter;
pub mod handler;
pub mod laws;
pub mod shared;
pub mod sinks;
