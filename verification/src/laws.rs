//! The laws the combinators obey, stated over the transfer functions and the
//! combinator sinks themselves.

use vstd::prelude::*;

use crate::handler::{
    filter_out, map_out, opt_out, EventHandler, Filtered, Identity, KeepIf, Mapping, Predicate,
    SomeOf, With, WithFiltered,
};

verus! {

/// Mapping through a pointwise identity changes nothing: what reaches the
/// inner sink is exactly the sequence of inputs.
pub proof fn lemma_map_out_identity<T>(g: spec_fn(T) -> T, xs: Seq<T>)
    requires
        forall|t: T| #[trigger] g(t) == t,
    ensures
        map_out(g, xs) == xs,
    decreases xs.len(),
{
    if xs.len() == 0 {
        assert(map_out(g, xs) =~= xs);
    } else {
        lemma_map_out_identity(g, xs.drop_last());
        assert(map_out(g, xs) =~= xs);
    }
}

/// Identity composition: a sink wrapped by `with(s, Identity)` is observably
/// identical to `s`, for every sequence of sends.  The inner sink's history
/// is what it already held plus exactly the wrapper's inputs, in order.
pub proof fn lemma_with_identity<S: EventHandler<T>, T>(w: With<S, Identity, T, T>)
    requires
        w.wf(),
    ensures
        w.inner.received() == w.base@ + w.received(),
{
    lemma_map_out_identity(w.map_fn(), w.log@);
}

/// Filter correctness: the values reaching the inner sink are precisely the
/// subsequence of the inputs that satisfy the predicate, in the same relative
/// order — the transfer function coincides with `Seq::filter`.
pub proof fn lemma_filter_out_is_filter<T>(p: spec_fn(T) -> bool, xs: Seq<T>)
    ensures
        filter_out(p, xs) == xs.filter(p),
    decreases xs.len(),
{
    reveal(Seq::filter);
    if xs.len() != 0 {
        lemma_filter_out_is_filter(p, xs.drop_last());
    }
}

/// Filter correctness, at the sink: a well-formed `filtered(s, p)` leaves the
/// inner sink holding its original history plus the `Seq::filter` of the
/// wrapper's inputs.
pub proof fn lemma_filtered_is_filter<S: EventHandler<T>, P: Predicate<T>, T>(
    f: Filtered<S, P, T>,
)
    requires
        f.wf(),
    ensures
        f.inner.received() == f.base@ + f.received().filter(f.pred_fn()),
{
    lemma_filter_out_is_filter(f.pred_fn(), f.log@);
}

/// A partial mapping that always yields a value transfers exactly as the
/// underlying total mapping does.
pub proof fn lemma_opt_out_of_total<U, T>(
    g: spec_fn(U) -> T,
    go: spec_fn(U) -> Option<T>,
    xs: Seq<U>,
)
    requires
        forall|u: U| #[trigger] go(u) == Some(g(u)),
    ensures
        opt_out(go, xs) == map_out(g, xs),
    decreases xs.len(),
{
    if xs.len() != 0 {
        lemma_opt_out_of_total(g, go, xs.drop_last());
    }
}

/// A partial mapping that keeps a value unchanged exactly when a predicate
/// holds transfers exactly as the filter does.
pub proof fn lemma_opt_out_of_pred<T>(
    p: spec_fn(T) -> bool,
    go: spec_fn(T) -> Option<T>,
    xs: Seq<T>,
)
    requires
        forall|t: T| #[trigger] go(t) == (if p(t) {
            Some(t)
        } else {
            None
        }),
    ensures
        opt_out(go, xs) == filter_out(p, xs),
    decreases xs.len(),
{
    if xs.len() != 0 {
        lemma_opt_out_of_pred(p, go, xs.drop_last());
    }
}

/// `with_filtered` subsumes `with`: over the same inner starting history and
/// the same inputs, `with_filtered(s, SomeOf(g))` leaves the inner sink with
/// exactly the history `with(s, g)` would.
pub proof fn lemma_with_filtered_subsumes_with<S: EventHandler<T>, G: Mapping<U, T>, U, T>(
    w: With<S, G, U, T>,
    v: WithFiltered<S, SomeOf<G>, U, T>,
)
    requires
        w.wf(),
        v.wf(),
        v.g.0 == w.g,
        v.received() == w.received(),
        v.base@ == w.base@,
    ensures
        v.inner.received() == w.inner.received(),
{
    lemma_opt_out_of_total(w.map_fn(), v.opt_fn(), w.log@);
}

/// `with_filtered` subsumes `filtered`: over the same inner starting history
/// and the same inputs, `with_filtered(s, KeepIf(p))` leaves the inner sink
/// with exactly the history `filtered(s, p)` would.
pub proof fn lemma_with_filtered_subsumes_filtered<S: EventHandler<T>, P: Predicate<T>, T>(
    f: Filtered<S, P, T>,
    v: WithFiltered<S, KeepIf<P>, T, T>,
)
    requires
        f.wf(),
        v.wf(),
        v.g.0 == f.p,
        v.received() == f.received(),
        v.base@ == f.base@,
    ensures
        v.inner.received() == f.inner.received(),
{
    lemma_opt_out_of_pred(f.pred_fn(), v.opt_fn(), f.log@);
}

} // verus!
