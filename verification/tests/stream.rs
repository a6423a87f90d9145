use detectable_stream::detect::{drive, FinishDetector, StreamEvent};
use detectable_stream::signal::{create, Resolution};

#[test]
fn waiter_starts_pending() {
    let (_emitter, mut waiter) = create();
    assert_eq!(waiter.poll_resolution(), Resolution::Pending);
    assert_eq!(waiter.poll_resolution(), Resolution::Pending);
}

#[test]
fn two_items_then_end() {
    let (emitter, mut waiter) = create();
    let mut detector = FinishDetector::new(emitter);

    let out1 = detector.produce_next(StreamEvent::Item("abc"));
    assert_eq!(out1, StreamEvent::Item("abc"));
    assert_eq!(waiter.poll_resolution(), Resolution::Pending);

    let out2 = detector.produce_next(StreamEvent::Item("def"));
    assert_eq!(out2, StreamEvent::Item("def"));
    assert_eq!(waiter.poll_resolution(), Resolution::Pending);

    let out3 = detector.produce_next::<&str>(StreamEvent::End);
    assert_eq!(out3, StreamEvent::End);
    assert_eq!(waiter.poll_resolution(), Resolution::Completed);

    let out4 = detector.produce_next::<&str>(StreamEvent::End);
    assert_eq!(out4, StreamEvent::End);
    assert_eq!(waiter.poll_resolution(), Resolution::Completed);
}

#[test]
fn forwards_whole_script_in_order() {
    let (emitter, mut waiter) = create();
    let mut detector = FinishDetector::new(emitter);
    let script = vec![
        StreamEvent::Item(1),
        StreamEvent::Suspend,
        StreamEvent::Item(2),
        StreamEvent::Item(3),
        StreamEvent::End,
    ];
    let expected = vec![
        StreamEvent::Item(1),
        StreamEvent::Suspend,
        StreamEvent::Item(2),
        StreamEvent::Item(3),
        StreamEvent::End,
    ];
    let outs = drive(&mut detector, script);
    assert_eq!(outs, expected);
    assert_eq!(waiter.poll_resolution(), Resolution::Completed);
}

#[test]
fn repeated_end_reports_stay_end() {
    let (emitter, mut waiter) = create();
    let mut detector = FinishDetector::new(emitter);
    assert_eq!(detector.produce_next::<u8>(StreamEvent::End), StreamEvent::End);
    assert_eq!(detector.produce_next::<u8>(StreamEvent::End), StreamEvent::End);
    assert_eq!(detector.produce_next::<u8>(StreamEvent::End), StreamEvent::End);
    assert_eq!(waiter.poll_resolution(), Resolution::Completed);
    assert_eq!(waiter.poll_resolution(), Resolution::Completed);
}

#[test]
fn dropped_before_end_cancels() {
    let (emitter, mut waiter) = create();
    let mut detector = FinishDetector::new(emitter);
    let _ = detector.produce_next(StreamEvent::Item(10u8));
    let _ = detector.produce_next(StreamEvent::Item(20u8));
    assert_eq!(waiter.poll_resolution(), Resolution::Pending);
    drop(detector);
    assert_eq!(waiter.poll_resolution(), Resolution::Cancelled);
    assert_eq!(waiter.poll_resolution(), Resolution::Cancelled);
}

#[test]
fn dropped_without_items_cancels() {
    let (emitter, mut waiter) = create();
    let detector = FinishDetector::new(emitter);
    drop(detector);
    assert_eq!(waiter.poll_resolution(), Resolution::Cancelled);
}

#[test]
fn completion_observable_by_awaiting() {
    let (emitter, waiter) = create();
    let mut detector = FinishDetector::new(emitter);
    let _ = detector.produce_next::<u8>(StreamEvent::End);
    let got = futures::executor::block_on(waiter.into_receiver());
    assert_eq!(got, Ok(()));
}

#[test]
fn cancellation_observable_by_awaiting() {
    let (emitter, waiter) = create();
    let detector = FinishDetector::new(emitter);
    drop(detector);
    let got = futures::executor::block_on(waiter.into_receiver());
    assert!(got.is_err());
}

#[test]
fn firing_without_listener_is_quiet() {
    let (emitter, waiter) = create();
    let mut detector = FinishDetector::new(emitter);
    drop(waiter);
    assert_eq!(detector.produce_next::<u8>(StreamEvent::End), StreamEvent::End);
    assert_eq!(detector.produce_next::<u8>(StreamEvent::End), StreamEvent::End);
}

#[test]
fn empty_script_leaves_waiter_pending() {
    let (emitter, mut waiter) = create();
    let mut detector = FinishDetector::new(emitter);
    let outs = drive(&mut detector, Vec::<StreamEvent<u8>>::new());
    assert!(outs.is_empty());
    assert_eq!(waiter.poll_resolution(), Resolution::Pending);
}
