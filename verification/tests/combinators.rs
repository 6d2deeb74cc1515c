use event_handler::handler::{
    filtered, with, with_filtered, AtLeast, ConstMap, EventHandler, Identity, KeepIf, SomeOf,
};
use event_handler::sinks::VecSink;

#[test]
fn identity_forwards_every_value_in_order() {
    let mut w = with(VecSink::new(), Identity);
    for v in [3u32, 1, 4, 1, 5] {
        w.send(v);
    }
    assert_eq!(w.inner.into_items(), vec![3u32, 1, 4, 1, 5]);
}

#[test]
fn const_map_replaces_every_value() {
    let mut w = with(VecSink::new(), ConstMap { value: 7u32 });
    w.send(100u64);
    w.send(0u64);
    w.send(42u64);
    assert_eq!(w.inner.into_items(), vec![7u32, 7, 7]);
}

#[test]
fn filtered_keeps_exactly_the_matching_subsequence() {
    let mut f = filtered(VecSink::new(), AtLeast { min: 3 });
    for v in [1u32, 5, 2, 3, 9, 0] {
        f.send(v);
    }
    assert_eq!(f.inner.into_items(), vec![5u32, 3, 9]);
}

#[test]
fn filtered_of_nothing_matching_is_silent() {
    let mut f = filtered(VecSink::new(), AtLeast { min: 10 });
    f.send(1u32);
    f.send(9u32);
    assert_eq!(f.inner.into_items(), Vec::<u32>::new());
}

#[test]
fn with_filtered_drops_none_and_maps_some() {
    let mut v = with_filtered(VecSink::new(), KeepIf(AtLeast { min: 4 }));
    for x in [6u32, 1, 8] {
        v.send(x);
    }
    assert_eq!(v.inner.into_items(), vec![6u32, 8]);
}

#[test]
fn with_filtered_of_lifted_mapping_equals_with() {
    let inputs = [10u64, 20, 30];
    let mut w = with(VecSink::new(), ConstMap { value: 1u32 });
    let mut v = with_filtered(VecSink::new(), SomeOf(ConstMap { value: 1u32 }));
    for x in inputs {
        w.send(x);
        v.send(x);
    }
    assert_eq!(w.inner.into_items(), v.inner.into_items());
}

#[test]
fn with_filtered_of_lifted_predicate_equals_filtered() {
    let inputs = [1u32, 5, 2, 3, 9, 0];
    let mut f = filtered(VecSink::new(), AtLeast { min: 3 });
    let mut v = with_filtered(VecSink::new(), KeepIf(AtLeast { min: 3 }));
    for x in inputs {
        f.send(x);
        v.send(x);
    }
    assert_eq!(f.inner.into_items(), v.inner.into_items());
}

#[test]
fn combinators_compose_in_chains() {
    // keep the large values, then tag each with a constant
    let mut chain = filtered(with(VecSink::new(), ConstMap { value: 9u32 }), AtLeast { min: 5 });
    for v in [1u32, 7, 3, 8] {
        chain.send(v);
    }
    assert_eq!(chain.inner.inner.into_items(), vec![9u32, 9]);
}
