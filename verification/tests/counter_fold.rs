use event_handler::channel::{signal_channel, stream_channel, StreamPoll};
use event_handler::counter::{counter_step, CounterEvent, FoldSink, ResettableCounter};
use event_handler::handler::{with, ConstMap, EventHandler};
use event_handler::shared::MultiEventHandler;
use event_handler::sinks::VecSink;

fn events() -> (ResettableCounter, ResettableCounter, ResettableCounter) {
    (
        ResettableCounter::Counter(CounterEvent::Increase),
        ResettableCounter::Counter(CounterEvent::Decrease),
        ResettableCounter::Reset,
    )
}

#[test]
fn counter_step_cases() {
    let (inc, dec, reset) = events();
    assert_eq!(counter_step(0, inc), 1);
    assert_eq!(counter_step(41, inc), 42);
    assert_eq!(counter_step(0, dec), -1);
    assert_eq!(counter_step(10, dec), 9);
    assert_eq!(counter_step(123, reset), 0);
    assert_eq!(counter_step(i32::MAX, inc), i32::MIN);
    assert_eq!(counter_step(i32::MIN, dec), i32::MAX);
}

#[test]
fn fold_sink_reports_every_intermediate_count() {
    let (inc, dec, reset) = events();
    let mut fold = FoldSink::new(0, VecSink::new());
    for ev in [inc, inc, dec, reset, inc] {
        fold.send(ev);
    }
    assert_eq!(fold.count, 1);
    assert_eq!(fold.inner.into_items(), vec![1, 2, 1, 0, 1]);
}

#[test]
fn signal_app_pipeline_shows_the_running_count() {
    let (inc, dec, reset) = events();
    // the signal-backed counter app: buttons fan out into one fold whose
    // outputs replace a live value
    let (count_sink, live) = signal_channel(0);
    let events = MultiEventHandler::new(FoldSink::new(0, count_sink));
    let mut increase = with(events.sink(), ConstMap { value: inc });
    let mut decrease = with(events.sink(), ConstMap { value: dec });
    let mut reset_button = with(events.sink(), ConstMap { value: reset });
    increase.send(());
    increase.send(());
    assert_eq!(live.get(), 2);
    decrease.send(());
    assert_eq!(live.get(), 1);
    reset_button.send(());
    assert_eq!(live.get(), 0);
    increase.send(());
    assert_eq!(live.get(), 1);
}

#[test]
fn stream_app_pipeline_folds_the_event_stream() {
    let (inc, dec, _reset) = events();
    // the stream-backed counter app: events queue up, the consumer scans
    // them into counts
    let (ev_sink, mut ev_stream) = stream_channel();
    let events = MultiEventHandler::new(ev_sink);
    let mut increase = with(events.sink(), ConstMap { value: inc });
    let mut decrease = with(events.sink(), ConstMap { value: dec });
    increase.send(());
    increase.send(());
    decrease.send(());
    increase.send(());
    let mut counts = Vec::new();
    let mut count: i32 = 0;
    while let StreamPoll::Item(ev) = ev_stream.try_next() {
        count = counter_step(count, ev);
        counts.push(count);
    }
    assert_eq!(counts, vec![1, 2, 1, 2]);
    assert_eq!(count, 2);
}
