//! Bridging constructors: a current-value channel and an ordered-event
//! channel.
//!
//! [`signal_channel`] pairs a sink with a [`LiveValue`]: each send replaces
//! the cell's current value, and every observer sees the value current at
//! the moment of observation followed by the subsequent updates.
//! [`stream_channel`] pairs a sink with an [`OrderedStream`]: an unbounded
//! FIFO queue whose sends never block and whose consumer sees the values in
//! send order.

use futures::channel::mpsc::{TryRecvError, UnboundedReceiver, UnboundedSender};
use futures_signals::signal::{Mutable, MutableSignalCloned};
use vstd::prelude::*;

use crate::handler::EventHandler;

verus! {

#[verifier::external_type_specification]
#[verifier::external_body]
#[verifier::reject_recursive_types(A)]
pub struct ExMutable<A>(Mutable<A>);

#[verifier::external_type_specification]
#[verifier::external_body]
#[verifier::reject_recursive_types(A)]
pub struct ExMutableSignalCloned<A>(MutableSignalCloned<A>);

#[verifier::external_type_specification]
#[verifier::external_body]
#[verifier::reject_recursive_types(T)]
pub struct ExUnboundedSender<T>(UnboundedSender<T>);

#[verifier::external_type_specification]
#[verifier::external_body]
#[verifier::reject_recursive_types(T)]
pub struct ExUnboundedReceiver<T>(UnboundedReceiver<T>);

/// Relies on `Mutable::new`: makes a value cell holding the given value.
#[verifier::external_body]
fn mutable_new<A>(a: A) -> (m: Mutable<A>) {
    Mutable::new(a)
}

/// Relies on `Mutable::set`: replaces the cell's current value (a total
/// replacement, no merging) and notifies every observer, in send order.
#[verifier::external_body]
fn mutable_set<A>(m: &Mutable<A>, a: A) {
    m.set(a)
}

/// Relies on `Mutable::get_cloned`: a clone of the cell's current value.
/// The cell is shared, so nothing relates the result to what this holder
/// last stored or read.
#[verifier::external_body]
fn mutable_get<A: Clone>(m: &Mutable<A>) -> (a: A) {
    m.get_cloned()
}

/// Relies on `Mutable::clone`: another handle to the same value cell.
#[verifier::external_body]
fn mutable_dup<A>(m: &Mutable<A>) -> (r: Mutable<A>) {
    m.clone()
}

/// Relies on `Mutable::signal_cloned`: a signal that yields a clone of the
/// value current at subscription time, then a clone of every subsequent
/// update, in send order (consecutive values may be coalesced between
/// polls: a slow observer sees the latest value, never a stale one).
#[verifier::external_body]
fn mutable_signal<A: Clone>(m: &Mutable<A>) -> (s: MutableSignalCloned<A>) {
    m.signal_cloned()
}

/// Relies on `futures::channel::mpsc::unbounded`: a sender and receiver for
/// an unbounded FIFO queue; sends never block.
#[verifier::external_body]
fn mpsc_unbounded<T>() -> (r: (UnboundedSender<T>, UnboundedReceiver<T>)) {
    futures::channel::mpsc::unbounded()
}

/// Relies on `UnboundedSender::unbounded_send`: enqueues the value, keeping
/// send order, and never blocks; it fails — returning `false` here — exactly
/// when the receiving end has been dropped (the queue is unbounded, so it is
/// never full).  A failed send drops the value.
#[verifier::external_body]
fn sender_send<T>(tx: &UnboundedSender<T>, x: T) -> (delivered: bool) {
    tx.unbounded_send(x).is_ok()
}

/// Relies on `UnboundedSender::clone`: another producer handle feeding the
/// same queue.
#[verifier::external_body]
fn sender_dup<T>(tx: &UnboundedSender<T>) -> (r: UnboundedSender<T>) {
    tx.clone()
}

/// Relies on `UnboundedReceiver::try_recv`: dequeues the oldest value, in
/// send order; reports the queue empty-but-open, or closed once every
/// producer has been dropped and the backlog is drained.
#[verifier::external_body]
fn receiver_try_recv<T>(rx: &mut UnboundedReceiver<T>) -> (r: StreamPoll<T>) {
    match rx.try_recv() {
        Ok(t) => StreamPoll::Item(t),
        Err(TryRecvError::Empty) => StreamPoll::Empty,
        Err(TryRecvError::Closed) => StreamPoll::Closed,
    }
}

/// One non-blocking observation of an [`OrderedStream`].
#[derive(Debug, PartialEq, Eq)]
pub enum StreamPoll<T> {
    /// The oldest queued value.
    Item(T),
    /// Nothing queued now, but a producer may still send.
    Empty,
    /// Every producer has been dropped and the backlog is drained.
    Closed,
}

/// The sink half of [`signal_channel`]: each accepted value replaces the
/// live value's current value, so the cell's content is always the last
/// value of `received()` (the initial value while none was sent).
#[verifier::reject_recursive_types(T)]
pub struct SignalSink<T> {
    pub state: Mutable<T>,
    /// Every value accepted, in order.
    pub log: Ghost<Seq<T>>,
}

impl<T> EventHandler<T> for SignalSink<T> {
    open spec fn wf(&self) -> bool {
        true
    }

    open spec fn received(&self) -> Seq<T> {
        self.log@
    }

    fn send(&mut self, x: T) {
        let ghost x0 = x;
        mutable_set(&self.state, x);
        self.log = Ghost(self.log@.push(x0));
    }
}

/// The observer half of [`signal_channel`]: a value cell exposing its
/// current value and, to any number of independent observers, the lazy
/// sequence of all subsequent values.  No history is kept: an observer that
/// starts late sees the then-current value first, never earlier ones.
#[verifier::reject_recursive_types(T)]
pub struct LiveValue<T> {
    pub state: Mutable<T>,
}

impl<T: Clone> LiveValue<T> {
    /// A clone of the current value, at the moment of the call.
    pub fn get(&self) -> T {
        mutable_get(&self.state)
    }

    /// A new independent observation: the current value at subscription
    /// time, then every subsequent update, in send order.
    pub fn observe(&self) -> MutableSignalCloned<T> {
        mutable_signal(&self.state)
    }
}

/// `signal_channel(initial)`: a sink and a live value over one shared
/// current-value cell.  Sending `v` replaces the current value with `v`;
/// observers each get their own clone of every value, which is why `T` must
/// be `Clone`.
pub fn signal_channel<T: Clone>(initial: T) -> (r: (SignalSink<T>, LiveValue<T>))
    ensures
        r.0.wf(),
        r.0.received() == Seq::<T>::empty(),
{
    let state = mutable_new(initial);
    let observer = LiveValue { state: mutable_dup(&state) };
    (SignalSink { state, log: Ghost(Seq::empty()) }, observer)
}

/// The sink half of [`stream_channel`]: each accepted value is appended to
/// the unbounded FIFO backlog, without blocking.  Sending after the paired
/// [`OrderedStream`] has been dropped is a contract violation in the caller;
/// it is not expected to occur in correct programs, and rather than abort it
/// is reported: the value is dropped and `disconnected` latches.
#[verifier::reject_recursive_types(T)]
pub struct StreamSink<T> {
    pub tx: UnboundedSender<T>,
    /// Every value accepted by this producer handle, in order.
    pub log: Ghost<Seq<T>>,
    /// Latched when a send found the consuming stream already dropped.
    pub disconnected: bool,
}

impl<T> StreamSink<T> {
    /// Sends, reporting whether the value was enqueued: `false` exactly when
    /// the consuming stream has already been dropped, in which case the
    /// value is dropped and the violation latches in `disconnected`.
    pub fn send_checked(&mut self, x: T) -> (delivered: bool)
        ensures
            final(self).received() == old(self).received().push(x),
            delivered ==> final(self).disconnected == old(self).disconnected,
            !delivered ==> final(self).disconnected,
    {
        let ghost x0 = x;
        let delivered = sender_send(&self.tx, x);
        if !delivered {
            self.disconnected = true;
        }
        self.log = Ghost(self.log@.push(x0));
        delivered
    }

    /// Another producer handle feeding the same queue; values from all
    /// producer handles interleave in send order.  The clone starts its own
    /// history.
    pub fn duplicate(&self) -> (r: StreamSink<T>)
        ensures
            r.received() == Seq::<T>::empty(),
            r.disconnected == self.disconnected,
    {
        StreamSink { tx: sender_dup(&self.tx), log: Ghost(Seq::empty()), disconnected: self.disconnected }
    }
}

impl<T> EventHandler<T> for StreamSink<T> {
    open spec fn wf(&self) -> bool {
        true
    }

    open spec fn received(&self) -> Seq<T> {
        self.log@
    }

    fn send(&mut self, x: T)
        ensures
            old(self).disconnected ==> final(self).disconnected,
    {
        let delivered = self.send_checked(x);
        let _ = delivered;
    }
}

/// The consumer half of [`stream_channel`]: an unbounded, ordered queue of
/// events.  It yields values strictly in send order, and ends only when
/// every producer handle has been dropped and the backlog is drained
/// (open, then draining, then closed — no other states).
#[verifier::reject_recursive_types(T)]
pub struct OrderedStream<T> {
    pub rx: UnboundedReceiver<T>,
}

impl<T> OrderedStream<T> {
    /// One non-blocking read of the oldest queued value.
    pub fn try_next(&mut self) -> (r: StreamPoll<T>) {
        receiver_try_recv(&mut self.rx)
    }

    /// Surrenders the underlying receiver, for consumers that fold the
    /// stream asynchronously.
    pub fn into_receiver(self) -> UnboundedReceiver<T> {
        self.rx
    }
}

/// `stream_channel()`: a producer sink and an ordered stream over one
/// unbounded FIFO queue.  Enqueuing never blocks and never fails while the
/// stream is alive; the stream yields the values in send order and is
/// exhausted only when every producer clone is gone and the backlog is
/// empty.
pub fn stream_channel<T>() -> (r: (StreamSink<T>, OrderedStream<T>))
    ensures
        r.0.wf(),
        r.0.received() == Seq::<T>::empty(),
        !r.0.disconnected,
{
    let (tx, rx) = mpsc_unbounded();
    (StreamSink { tx, log: Ghost(Seq::empty()), disconnected: false }, OrderedStream { rx })
}

} // verus!
