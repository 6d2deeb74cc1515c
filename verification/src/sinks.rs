//! Ready-made base sinks.

use vstd::prelude::*;

use crate::handler::EventHandler;

verus! {

/// A sink that records every value it accepts, in order.  Its concrete
/// contents are exactly its `received()` history, so it makes the effect of
/// any combinator chain placed in front of it directly observable.
pub struct VecSink<T> {
    pub items: Vec<T>,
}

impl<T> VecSink<T> {
    pub fn new() -> (r: Self)
        ensures
            r.wf(),
            r.received() == Seq::<T>::empty(),
    {
        VecSink { items: Vec::new() }
    }

    /// The recorded values, surrendering the sink.
    pub fn into_items(self) -> (r: Vec<T>)
        ensures
            r@ == self.received(),
    {
        self.items
    }
}

impl<T> EventHandler<T> for VecSink<T> {
    open spec fn wf(&self) -> bool {
        true
    }

    open spec fn received(&self) -> Seq<T> {
        self.items@
    }

    fn send(&mut self, x: T) {
        self.items.push(x);
    }
}

} // verus!
