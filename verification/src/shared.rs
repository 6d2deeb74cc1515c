//! The shared multi-consumer wrapper.
//!
//! [`MultiEventHandler`] takes ownership of one base sink and shares it
//! behind a reference-counted, runtime-checked exclusive slot.  Any number of
//! [`SinkHandle`]s can be derived; each is an independently owned sink that,
//! when invoked, withdraws the base sink from the slot, invokes it, and puts
//! it back.  While an invocation is running the slot is empty, so a nested
//! (reentrant) invocation through any handle of the same wrapper finds the
//! slot empty and is refused: it is reported through the handle's refusal
//! count and performs no effect, rather than corrupting or reordering the
//! shared state.

use core::cell::RefCell;
use core::marker::PhantomData;
use std::rc::Rc;
use vstd::prelude::*;

use crate::handler::EventHandler;

verus! {

#[verifier::external_type_specification]
#[verifier::external_body]
#[verifier::reject_recursive_types(T)]
pub struct ExRefCell<T: ?Sized>(RefCell<T>);

/// Relies on `RefCell::new`: makes a cell that stores the given value.
#[verifier::external_body]
fn cell_new<A>(a: A) -> (c: RefCell<A>) {
    RefCell::new(a)
}

/// Relies on `RefCell::replace`: stores the given value and returns the
/// previous occupant.  `replace` panics only while a borrow of the cell is
/// active; this crate never borrows its cells — it only ever replaces — so no
/// borrow is active at any call.  Nothing can be assumed about the returned
/// value: the cell is shared, and any holder of a handle may have replaced
/// its content since this holder last saw it.
#[verifier::external_body]
fn cell_swap<A>(c: &Rc<RefCell<A>>, a: A) -> (r: A) {
    c.replace(a)
}

/// Relies on `Rc::clone`: yields another counted reference to the same cell.
#[verifier::external_body]
fn rc_dup<A>(rc: &Rc<RefCell<A>>) -> (r: Rc<RefCell<A>>) {
    Rc::clone(rc)
}

/// One base sink of type `F`, shared among any number of derived
/// [`SinkHandle`]s.  The base sink leaves the slot for the duration of each
/// invocation, which serializes invocations and makes reentrancy detectable.
#[verifier::reject_recursive_types(F)]
pub struct MultiEventHandler<F, T> {
    pub cell: Rc<RefCell<Option<F>>>,
    pub marker: PhantomData<T>,
}

/// An independently owned sink that forwards into the base sink of the
/// [`MultiEventHandler`] it was derived from.  `received()` is the history
/// of values handed to this handle, delivered or refused; a refused value
/// (a reentrant invocation) is counted in `refusals` and has no effect.
#[verifier::reject_recursive_types(F)]
pub struct SinkHandle<F, T> {
    pub cell: Rc<RefCell<Option<F>>>,
    /// Every value handed to this handle, in order.
    pub log: Ghost<Seq<T>>,
    /// How many of those values were refused because the base sink was
    /// already executing (saturating).
    pub refusals: u64,
}

impl<F: EventHandler<T>, T> MultiEventHandler<F, T> {
    /// Takes ownership of the base sink.  The slot starts occupied, so the
    /// first invocation of any derived handle reaches the base sink.
    pub fn new(f: F) -> (r: Self) {
        MultiEventHandler { cell: Rc::new(cell_new(Some(f))), marker: PhantomData }
    }

    /// Derives a new, independently owned handle sink.  Each derived handle
    /// starts with an empty history and no refusals; all of them funnel into
    /// the one shared base sink.
    pub fn sink(&self) -> (r: SinkHandle<F, T>)
        ensures
            r.received() == Seq::<T>::empty(),
            r.refusals == 0,
    {
        SinkHandle { cell: rc_dup(&self.cell), log: Ghost(Seq::empty()), refusals: 0 }
    }

    /// Withdraws the base sink, leaving the slot empty: `None` when an
    /// invocation is in progress or the sink is already withdrawn.  While
    /// withdrawn, every handle send is refused, exactly as during a
    /// reentrant invocation.
    pub fn detach(&self) -> (r: Option<F>) {
        cell_swap(&self.cell, None)
    }

    /// Puts a base sink back after [`MultiEventHandler::detach`], returning
    /// the previous occupant (`None` in disciplined use).
    pub fn reattach(&self, f: F) -> (r: Option<F>) {
        cell_swap(&self.cell, Some(f))
    }
}

impl<F: EventHandler<T>, T> SinkHandle<F, T> {
    /// Invokes the shared base sink with `x`, acquiring exclusive access for
    /// the duration of the call.  Returns whether the base sink was invoked:
    /// `false` reports a reentrancy violation — the base sink was already
    /// executing (or stood detached), so the value was refused, counted, and
    /// had no effect on the shared state.
    pub fn try_send(&mut self, x: T) -> (delivered: bool)
        ensures
            final(self).received() == old(self).received().push(x),
            delivered ==> final(self).refusals == old(self).refusals,
            !delivered ==> final(self).refusals as int == (if old(self).refusals == u64::MAX {
                u64::MAX as int
            } else {
                old(self).refusals + 1
            }),
    {
        let ghost x0 = x;
        self.log = Ghost(self.log@.push(x0));
        match cell_swap(&self.cell, None) {
            Some(mut f) => {
                f.send(x);
                let previous = cell_swap(&self.cell, Some(f));
                let _ = previous;
                true
            },
            None => {
                if self.refusals < u64::MAX {
                    self.refusals = self.refusals + 1;
                }
                false
            },
        }
    }
}

impl<F: EventHandler<T>, T> EventHandler<T> for SinkHandle<F, T> {
    open spec fn wf(&self) -> bool {
        true
    }

    open spec fn received(&self) -> Seq<T> {
        self.log@
    }

    fn send(&mut self, x: T)
        ensures
            final(self).refusals >= old(self).refusals,
    {
        let delivered = self.try_send(x);
        let _ = delivered;
    }
}

} // verus!
