//! The counter state machine that the demo applications fold their event
//! streams with, and a sink that performs that fold and forwards each new
//! count downstream.

use vstd::prelude::*;

use crate::handler::EventHandler;

verus! {

/// An event of the plain counter.
#[derive(Clone, Copy, PartialEq, Eq, Structural, Debug)]
pub enum CounterEvent {
    Increase,
    Decrease,
}

/// An event of the resettable counter, wrapping the plain counter's events.
#[derive(Clone, Copy, PartialEq, Eq, Structural, Debug)]
pub enum ResettableCounter {
    Counter(CounterEvent),
    Reset,
}

/// One step of the counter: increase or decrease by one (wrapping at the
/// `i32` bounds), or reset to zero.
pub open spec fn spec_counter_step(c: int, ev: ResettableCounter) -> int {
    match ev {
        ResettableCounter::Counter(CounterEvent::Increase) => if c == i32::MAX {
            i32::MIN as int
        } else {
            c + 1
        },
        ResettableCounter::Counter(CounterEvent::Decrease) => if c == i32::MIN {
            i32::MAX as int
        } else {
            c - 1
        },
        ResettableCounter::Reset => 0,
    }
}

/// The count after applying every event of `evs`, oldest first, to `init`.
pub open spec fn counter_fold(init: int, evs: Seq<ResettableCounter>) -> int
    decreases evs.len(),
{
    if evs.len() == 0 {
        init
    } else {
        spec_counter_step(counter_fold(init, evs.drop_last()), evs.last())
    }
}

/// The counts seen after each event of `evs` in turn: what a downstream
/// observer of the fold receives.
pub open spec fn counter_outputs(init: int, evs: Seq<ResettableCounter>) -> Seq<i32>
    decreases evs.len(),
{
    if evs.len() == 0 {
        Seq::empty()
    } else {
        counter_outputs(init, evs.drop_last()).push(counter_fold(init, evs) as i32)
    }
}

/// One step of the counter, executable.
pub fn counter_step(c: i32, ev: ResettableCounter) -> (r: i32)
    ensures
        r as int == spec_counter_step(c as int, ev),
{
    match ev {
        ResettableCounter::Counter(CounterEvent::Increase) => {
            if c == i32::MAX {
                i32::MIN
            } else {
                c + 1
            }
        },
        ResettableCounter::Counter(CounterEvent::Decrease) => {
            if c == i32::MIN {
                i32::MAX
            } else {
                c - 1
            }
        },
        ResettableCounter::Reset => 0,
    }
}

/// A sink that folds counter events into a running count and forwards each
/// new count to an inner sink — the scan/accumulate step that turns an
/// ordered event stream into a live value.
pub struct FoldSink<S> {
    /// The running count.
    pub count: i32,
    pub inner: S,
    /// The count the fold started from.
    pub init: Ghost<int>,
    /// Every event accepted, in order.
    pub log: Ghost<Seq<ResettableCounter>>,
    /// What the inner sink had already received when the fold was made.
    pub base: Ghost<Seq<i32>>,
}

impl<S: EventHandler<i32>> FoldSink<S> {
    /// A fold over `inner`, starting from `initial`.
    pub fn new(initial: i32, inner: S) -> (r: Self)
        requires
            inner.wf(),
        ensures
            r.wf(),
            r.received() == Seq::<ResettableCounter>::empty(),
            r.count == initial,
            r.inner == inner,
            r.init@ == initial as int,
            r.base@ == inner.received(),
    {
        FoldSink {
            count: initial,
            base: Ghost(inner.received()),
            inner,
            init: Ghost(initial as int),
            log: Ghost(Seq::empty()),
        }
    }
}

impl<S: EventHandler<i32>> EventHandler<ResettableCounter> for FoldSink<S> {
    open spec fn wf(&self) -> bool {
        &&& self.inner.wf()
        &&& i32::MIN <= self.init@ <= i32::MAX
        &&& self.count as int == counter_fold(self.init@, self.log@)
        &&& self.inner.received() == self.base@ + counter_outputs(self.init@, self.log@)
    }

    open spec fn received(&self) -> Seq<ResettableCounter> {
        self.log@
    }

    fn send(&mut self, x: ResettableCounter)
        ensures
            final(self).init == old(self).init,
            final(self).base == old(self).base,
            final(self).count as int == spec_counter_step(old(self).count as int, x),
            final(self).inner.received() == old(self).inner.received().push(final(self).count),
            old(self).inner.wf() ==> final(self).inner.wf(),
    {
        let ghost x0 = x;
        let c = counter_step(self.count, x);
        self.count = c;
        self.inner.send(c);
        self.log = Ghost(self.log@.push(x0));
        proof {
            assert(self.log@.drop_last() =~= old(self).log@);
            assert(self.base@ + counter_outputs(self.init@, old(self).log@).push(c) =~= (self.base@
                + counter_outputs(self.init@, old(self).log@)).push(c));
        }
    }
}

/// A sequence of `n` increase events.
pub open spec fn increases(n: nat) -> Seq<ResettableCounter> {
    Seq::new(n, |i: int| ResettableCounter::Counter(CounterEvent::Increase))
}

/// Fan-out counting: `n` increase invocations starting from zero leave the
/// count at exactly `n` — none skipped, none duplicated.
pub proof fn lemma_count_of_increases(n: nat)
    requires
        n <= i32::MAX,
    ensures
        counter_fold(0, increases(n)) == n,
    decreases n,
{
    if n > 0 {
        assert(increases(n).drop_last() =~= increases((n - 1) as nat));
        lemma_count_of_increases((n - 1) as nat);
    }
}

/// Fan-out counting, downstream: `n` increase invocations from zero make
/// the observer see exactly `1, 2, ..., n`, each intermediate value once
/// and in order.
pub proof fn lemma_outputs_of_increases(n: nat)
    requires
        n <= i32::MAX,
    ensures
        counter_outputs(0, increases(n)) == Seq::new(n, |i: int| (i + 1) as i32),
    decreases n,
{
    if n == 0 {
        assert(counter_outputs(0, increases(n)) =~= Seq::new(n, |i: int| (i + 1) as i32));
    } else {
        assert(increases(n).drop_last() =~= increases((n - 1) as nat));
        lemma_outputs_of_increases((n - 1) as nat);
        lemma_count_of_increases(n);
        assert(counter_outputs(0, increases(n)) =~= Seq::new(n, |i: int| (i + 1) as i32));
    }
}

/// Fan-out serialization, at the sink: however many handles the increase
/// invocations arrived through, once a well-formed fold that started at zero
/// has received `n` increases, its count is exactly `n` and its observer has
/// seen `1, 2, ..., n` — no value skipped, none duplicated.
pub proof fn lemma_fan_out_count<S: EventHandler<i32>>(f: FoldSink<S>, n: nat)
    requires
        f.wf(),
        f.init@ == 0,
        f.received() == increases(n),
        n <= i32::MAX,
    ensures
        f.count == n,
        f.inner.received() == f.base@ + Seq::new(n, |i: int| (i + 1) as i32),
{
    lemma_count_of_increases(n);
    lemma_outputs_of_increases(n);
}

} // verus!
