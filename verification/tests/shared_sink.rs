use event_handler::counter::{CounterEvent, FoldSink, ResettableCounter};
use event_handler::handler::{with, ConstMap, EventHandler};
use event_handler::shared::MultiEventHandler;
use event_handler::sinks::VecSink;

#[test]
fn fan_out_serializes_into_one_base_sink() {
    let mh = MultiEventHandler::new(VecSink::new());
    let mut h1 = mh.sink();
    let mut h2 = mh.sink();
    let mut h3 = mh.sink();
    assert!(h1.try_send(1u32));
    assert!(h2.try_send(2u32));
    assert!(h3.try_send(3u32));
    assert!(h1.try_send(4u32));
    let base = mh.detach().expect("no invocation is in progress");
    assert_eq!(base.into_items(), vec![1u32, 2, 3, 4]);
}

#[test]
fn counter_fan_out_reaches_n_without_skips() {
    // a counter-incrementing base sink behind five independently derived
    // handles, each invoked once: the count is 5 and every intermediate
    // value appears exactly once, in order
    let fold = FoldSink::new(0, VecSink::new());
    let mh = MultiEventHandler::new(fold);
    let mut handles = Vec::new();
    for _ in 0..5 {
        handles.push(mh.sink());
    }
    for h in handles.iter_mut() {
        assert!(h.try_send(ResettableCounter::Counter(CounterEvent::Increase)));
    }
    let fold = mh.detach().expect("no invocation is in progress");
    assert_eq!(fold.count, 5);
    assert_eq!(fold.inner.into_items(), vec![1, 2, 3, 4, 5]);
}

#[test]
fn handles_compose_with_combinators() {
    let mh = MultiEventHandler::new(VecSink::new());
    let mut increase = with(mh.sink(), ConstMap { value: CounterEvent::Increase });
    let mut decrease = with(mh.sink(), ConstMap { value: CounterEvent::Decrease });
    increase.send(());
    decrease.send(());
    increase.send(());
    let base = mh.detach().expect("no invocation is in progress");
    assert_eq!(
        base.into_items(),
        vec![CounterEvent::Increase, CounterEvent::Decrease, CounterEvent::Increase]
    );
}

#[test]
fn reentrant_invocation_is_refused_and_corrupts_nothing() {
    let mh = MultiEventHandler::new(VecSink::new());
    let mut handle = mh.sink();
    // while the base sink is out of the slot — exactly its state during an
    // invocation already in progress — a nested send must be refused
    let base = mh.detach().expect("the slot starts occupied");
    assert!(!handle.try_send(1u32));
    assert_eq!(handle.refusals, 1);
    handle.send(2u32);
    assert_eq!(handle.refusals, 2);
    assert!(mh.reattach(base).is_none());
    // the refused values never reached the shared state
    let base = mh.detach().expect("no invocation is in progress");
    assert_eq!(base.into_items(), Vec::<u32>::new());
    // once the base sink is back, sends are delivered again
}

#[test]
fn delivery_resumes_after_reattach() {
    let mh = MultiEventHandler::new(VecSink::new());
    let mut handle = mh.sink();
    let base = mh.detach().expect("the slot starts occupied");
    assert!(!handle.try_send(1u32));
    mh.reattach(base);
    assert!(handle.try_send(2u32));
    assert_eq!(handle.refusals, 1);
    let base = mh.detach().expect("no invocation is in progress");
    assert_eq!(base.into_items(), vec![2u32]);
}

/// A base sink whose effect re-enters the same shared wrapper through a
/// handle of its own: a reentrancy violation by construction.
struct Reentering {
    nested: Option<event_handler::shared::SinkHandle<Reentering, u32>>,
    nested_refused: bool,
    got: Vec<u32>,
}

impl EventHandler<u32> for Reentering {
    // the two specification-level items are never executed at run time
    fn wf(&self) -> bool {
        true
    }

    fn received(&self) -> vstd::seq::Seq<u32> {
        panic!("specification-level item")
    }

    fn send(&mut self, x: u32) {
        self.got.push(x);
        if let Some(h) = self.nested.as_mut() {
            self.nested_refused = !h.try_send(x + 100);
        }
    }
}

#[test]
fn nested_invocation_through_the_same_wrapper_is_refused() {
    let mh = MultiEventHandler::new(Reentering {
        nested: None,
        nested_refused: false,
        got: Vec::new(),
    });
    // arm the base sink with a handle back into its own wrapper
    let inner_handle = mh.sink();
    let mut base = mh.detach().expect("the slot starts occupied");
    base.nested = Some(inner_handle);
    assert!(mh.reattach(base).is_none());

    let mut outer = mh.sink();
    assert!(outer.try_send(1));

    let base = mh.detach().expect("no invocation is in progress");
    // the nested send was detected and aborted: the outer value arrived,
    // the reentrant one was refused and never reached the base sink
    assert!(base.nested_refused);
    assert_eq!(base.got, vec![1]);
}

#[test]
fn fresh_handles_start_clean() {
    let mh = MultiEventHandler::new(VecSink::<u32>::new());
    let h = mh.sink();
    assert_eq!(h.refusals, 0);
}
