//! The sink capability and its composition operators.
//!
//! An [`EventHandler`] accepts one value per call and performs an effect.
//! Its specification view is `received()`: the sequence of every value the
//! sink has accepted so far, newest last.  Combinators wrap a sink in a new
//! sink of a different input type; what reaches the inner sink is given by
//! the transfer functions [`map_out`], [`filter_out`] and [`opt_out`].

use vstd::prelude::*;

verus! {

/// A sink: accepts one value of type `T` per call and performs an effect.
///
/// `received()` is the abstract history of accepted values; `send` appends
/// to it.  `wf()` is the sink's well-formedness invariant (for a combinator,
/// the relation between its own history and its inner sink's history);
/// `send` preserves it.
pub trait EventHandler<T>: Sized {
    spec fn wf(&self) -> bool;

    spec fn received(&self) -> Seq<T>;

    fn send(&mut self, x: T)
        ensures
            final(self).received() == old(self).received().push(x),
            old(self).wf() ==> final(self).wf(),
    ;
}

/// A total mapping `U -> T`, supplied by the caller of [`with`].
///
/// The executable `map` must agree with the pure `map_spec`, so a mapped
/// sink's behaviour is a function of its inputs alone.
pub trait Mapping<U, T>: Sized {
    spec fn map_spec(&self, u: U) -> T;

    fn map(&self, u: U) -> (t: T)
        ensures
            t == self.map_spec(u),
    ;
}

/// A predicate over `T`, supplied by the caller of [`filtered`].
pub trait Predicate<T>: Sized {
    spec fn pred_spec(&self, t: T) -> bool;

    fn test(&self, t: &T) -> (b: bool)
        ensures
            b == self.pred_spec(*t),
    ;
}

/// A partial mapping `U -> Option<T>`, supplied by the caller of
/// [`with_filtered`]: `None` drops the event.
pub trait OptMapping<U, T>: Sized {
    spec fn opt_spec(&self, u: U) -> Option<T>;

    fn map_opt(&self, u: U) -> (r: Option<T>)
        ensures
            r == self.opt_spec(u),
    ;
}

/// What reaches the inner sink when the inputs `xs` pass through a total
/// mapping `g`: every input, mapped, in order.
pub open spec fn map_out<U, T>(g: spec_fn(U) -> T, xs: Seq<U>) -> Seq<T>
    decreases xs.len(),
{
    if xs.len() == 0 {
        Seq::empty()
    } else {
        map_out(g, xs.drop_last()).push(g(xs.last()))
    }
}

/// What reaches the inner sink when the inputs `xs` pass through a filter
/// `p`: the subsequence satisfying `p`, in order.
pub open spec fn filter_out<T>(p: spec_fn(T) -> bool, xs: Seq<T>) -> Seq<T>
    decreases xs.len(),
{
    if xs.len() == 0 {
        Seq::empty()
    } else if p(xs.last()) {
        filter_out(p, xs.drop_last()).push(xs.last())
    } else {
        filter_out(p, xs.drop_last())
    }
}

/// What reaches the inner sink when the inputs `xs` pass through a partial
/// mapping `g`: the mapped values of the inputs `g` keeps, in order.
pub open spec fn opt_out<U, T>(g: spec_fn(U) -> Option<T>, xs: Seq<U>) -> Seq<T>
    decreases xs.len(),
{
    if xs.len() == 0 {
        Seq::empty()
    } else {
        match g(xs.last()) {
            Some(t) => opt_out(g, xs.drop_last()).push(t),
            None => opt_out(g, xs.drop_last()),
        }
    }
}

/// The sink made by [`with`]: adapts a `Sink<T>` into a `Sink<U>` through a
/// total mapping, one inner invocation per outer invocation.
pub struct With<S, G, U, T> {
    pub inner: S,
    pub g: G,
    /// What the inner sink had already received when this wrapper was made.
    pub base: Ghost<Seq<T>>,
    /// What this wrapper has received since.
    pub log: Ghost<Seq<U>>,
}

impl<S: EventHandler<T>, G: Mapping<U, T>, U, T> With<S, G, U, T> {
    /// The mapping, as a plain specification-level function.
    pub open spec fn map_fn(&self) -> spec_fn(U) -> T {
        |u: U| self.g.map_spec(u)
    }
}

impl<S: EventHandler<T>, G: Mapping<U, T>, U, T> EventHandler<U> for With<S, G, U, T> {
    open spec fn wf(&self) -> bool {
        &&& self.inner.wf()
        &&& self.inner.received() == self.base@ + map_out(self.map_fn(), self.log@)
    }

    open spec fn received(&self) -> Seq<U> {
        self.log@
    }

    fn send(&mut self, x: U)
        ensures
            final(self).g == old(self).g,
            final(self).base == old(self).base,
            final(self).inner.received() == old(self).inner.received().push(
                old(self).g.map_spec(x),
            ),
            old(self).inner.wf() ==> final(self).inner.wf(),
    {
        let ghost x0 = x;
        let ghost g_ = self.map_fn();
        let t = self.g.map(x);
        self.inner.send(t);
        self.log = Ghost(self.log@.push(x0));
        proof {
            assert(self.log@.drop_last() =~= old(self).log@);
            assert(self.base@ + map_out(g_, old(self).log@).push(t) =~= (self.base@
                + map_out(g_, old(self).log@)).push(t));
        }
    }
}

/// `with(s, g)`: a sink that maps each incoming `u` through `g` and forwards
/// the result to `s`.  Exactly one inner invocation per outer invocation.
pub fn with<S: EventHandler<T>, G: Mapping<U, T>, U, T>(s: S, g: G) -> (r: With<S, G, U, T>)
    requires
        s.wf(),
    ensures
        r.wf(),
        r.received() == Seq::<U>::empty(),
        r.inner == s,
        r.g == g,
        r.base@ == s.received(),
{
    With { inner: s, g, base: Ghost(s.received()), log: Ghost(Seq::empty()) }
}

/// The sink made by [`filtered`]: forwards only the values satisfying the
/// predicate, unchanged and in order; the rest are dropped without effect.
pub struct Filtered<S, P, T> {
    pub inner: S,
    pub p: P,
    pub base: Ghost<Seq<T>>,
    pub log: Ghost<Seq<T>>,
}

impl<S: EventHandler<T>, P: Predicate<T>, T> Filtered<S, P, T> {
    /// The predicate, as a plain specification-level function.
    pub open spec fn pred_fn(&self) -> spec_fn(T) -> bool {
        |t: T| self.p.pred_spec(t)
    }
}

impl<S: EventHandler<T>, P: Predicate<T>, T> EventHandler<T> for Filtered<S, P, T> {
    open spec fn wf(&self) -> bool {
        &&& self.inner.wf()
        &&& self.inner.received() == self.base@ + filter_out(self.pred_fn(), self.log@)
    }

    open spec fn received(&self) -> Seq<T> {
        self.log@
    }

    fn send(&mut self, x: T)
        ensures
            final(self).p == old(self).p,
            final(self).base == old(self).base,
            final(self).inner.received() == (if old(self).p.pred_spec(x) {
                old(self).inner.received().push(x)
            } else {
                old(self).inner.received()
            }),
            old(self).inner.wf() ==> final(self).inner.wf(),
    {
        let ghost x0 = x;
        let ghost p_ = self.pred_fn();
        if self.p.test(&x) {
            self.inner.send(x);
        }
        self.log = Ghost(self.log@.push(x0));
        proof {
            assert(self.log@.drop_last() =~= old(self).log@);
            if p_(x0) {
                assert(self.base@ + filter_out(p_, old(self).log@).push(x0) =~= (self.base@
                    + filter_out(p_, old(self).log@)).push(x0));
            }
        }
    }
}

/// `filtered(s, p)`: a sink that forwards a value to `s` exactly when `p`
/// holds of it, and otherwise drops it (no effect, no error).
pub fn filtered<S: EventHandler<T>, P: Predicate<T>, T>(s: S, p: P) -> (r: Filtered<S, P, T>)
    requires
        s.wf(),
    ensures
        r.wf(),
        r.received() == Seq::<T>::empty(),
        r.inner == s,
        r.p == p,
        r.base@ == s.received(),
{
    Filtered { inner: s, p, base: Ghost(s.received()), log: Ghost(Seq::empty()) }
}

/// The sink made by [`with_filtered`]: maps each incoming `u` through a
/// partial mapping and forwards the mapped value when there is one.
pub struct WithFiltered<S, G, U, T> {
    pub inner: S,
    pub g: G,
    pub base: Ghost<Seq<T>>,
    pub log: Ghost<Seq<U>>,
}

impl<S: EventHandler<T>, G: OptMapping<U, T>, U, T> WithFiltered<S, G, U, T> {
    /// The partial mapping, as a plain specification-level function.
    pub open spec fn opt_fn(&self) -> spec_fn(U) -> Option<T> {
        |u: U| self.g.opt_spec(u)
    }
}

impl<S: EventHandler<T>, G: OptMapping<U, T>, U, T> EventHandler<U> for WithFiltered<S, G, U, T> {
    open spec fn wf(&self) -> bool {
        &&& self.inner.wf()
        &&& self.inner.received() == self.base@ + opt_out(self.opt_fn(), self.log@)
    }

    open spec fn received(&self) -> Seq<U> {
        self.log@
    }

    fn send(&mut self, x: U)
        ensures
            final(self).g == old(self).g,
            final(self).base == old(self).base,
            final(self).inner.received() == (match old(self).g.opt_spec(x) {
                Some(t) => old(self).inner.received().push(t),
                None => old(self).inner.received(),
            }),
            old(self).inner.wf() ==> final(self).inner.wf(),
    {
        let ghost x0 = x;
        let ghost g_ = self.opt_fn();
        match self.g.map_opt(x) {
            Some(t) => {
                self.inner.send(t);
                proof {
                    assert(self.base@ + opt_out(g_, old(self).log@).push(t) =~= (self.base@
                        + opt_out(g_, old(self).log@)).push(t));
                }
            },
            None => {},
        }
        self.log = Ghost(self.log@.push(x0));
        proof {
            assert(self.log@.drop_last() =~= old(self).log@);
        }
    }
}

/// The identity mapping: `with(s, Identity)` forwards every value unchanged.
pub struct Identity;

impl<T> Mapping<T, T> for Identity {
    open spec fn map_spec(&self, u: T) -> T {
        u
    }

    fn map(&self, u: T) -> (t: T) {
        u
    }
}

/// A mapping that ignores its input and produces a fixed value, as a button
/// callback turns a unit click event into one fixed application event.
pub struct ConstMap<T> {
    pub value: T,
}

impl<U, T: Copy> Mapping<U, T> for ConstMap<T> {
    open spec fn map_spec(&self, u: U) -> T {
        self.value
    }

    fn map(&self, u: U) -> (t: T) {
        self.value
    }
}

/// A predicate keeping the values at or above a threshold.
pub struct AtLeast {
    pub min: u32,
}

impl Predicate<u32> for AtLeast {
    open spec fn pred_spec(&self, t: u32) -> bool {
        t >= self.min
    }

    fn test(&self, t: &u32) -> (b: bool) {
        *t >= self.min
    }
}

/// Lifts a total mapping into a partial one that always yields a value, so
/// that [`with_filtered`] can play the role of [`with`].
pub struct SomeOf<G>(pub G);

impl<U, T, G: Mapping<U, T>> OptMapping<U, T> for SomeOf<G> {
    open spec fn opt_spec(&self, u: U) -> Option<T> {
        Some(self.0.map_spec(u))
    }

    fn map_opt(&self, u: U) -> (r: Option<T>) {
        Some(self.0.map(u))
    }
}

/// Lifts a predicate into a partial mapping that keeps a value exactly when
/// the predicate holds, so that [`with_filtered`] can play the role of
/// [`filtered`].
pub struct KeepIf<P>(pub P);

impl<T, P: Predicate<T>> OptMapping<T, T> for KeepIf<P> {
    open spec fn opt_spec(&self, u: T) -> Option<T> {
        if self.0.pred_spec(u) {
            Some(u)
        } else {
            None
        }
    }

    fn map_opt(&self, u: T) -> (r: Option<T>) {
        if self.0.test(&u) {
            Some(u)
        } else {
            None
        }
    }
}

/// `with_filtered(s, g)`: a sink that computes `g(u)` for each incoming `u`,
/// forwards the value when `g` yields one, and drops the event otherwise.
/// Zero or one inner invocation per outer invocation.
pub fn with_filtered<S: EventHandler<T>, G: OptMapping<U, T>, U, T>(s: S, g: G) -> (r:
    WithFiltered<S, G, U, T>)
    requires
        s.wf(),
    ensures
        r.wf(),
        r.received() == Seq::<U>::empty(),
        r.inner == s,
        r.g == g,
        r.base@ == s.received(),
{
    WithFiltered { inner: s, g, base: Ghost(s.received()), log: Ghost(Seq::empty()) }
}

} // verus!
