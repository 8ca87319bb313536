use frame_bridge::pair::{outcome_of, ChannelPair};
use frame_bridge::registry::Registry;
use frame_bridge::request::{plan_of, PlainRequest, Request};
use frame_bridge::state_cell::{Outcome, StateCell};

fn request(endpoint: &str, payload: u64) -> PlainRequest<u64> {
    match PlainRequest::new(endpoint.to_string(), Some(payload)) {
        Some(q) => q,
        None => panic!("endpoint must be non-empty"),
    }
}

fn pair() -> ChannelPair<PlainRequest<u64>, u64> {
    let mut registry = Registry::new();
    registry.register(0).expect("fresh identifier")
}

#[test]
fn fifo_dispatch_in_enqueue_order() {
    let pair = pair();
    let mut cell = StateCell::new(0u64);
    for payload in 1..=3u64 {
        assert!(pair.enqueue(request("op/echo", payload), &mut cell));
    }
    // One tick dispatches one request; three ticks drain all three,
    // in enqueue order.
    for expected in 1..=3u64 {
        let plan = pair.dispatch_once().expect("a request is pending");
        assert_eq!(plan.endpoint, "op/echo");
        assert_eq!(plan.payload, Some(expected));
    }
    assert!(pair.dispatch_once().is_none());
}

#[test]
fn at_most_one_dispatch_per_tick() {
    let pair = pair();
    let mut cell = StateCell::new(0u64);
    for payload in 1..=3u64 {
        assert!(pair.enqueue(request("op/echo", payload), &mut cell));
    }
    // One tick.
    let first = pair.dispatch_once().expect("a request is pending");
    assert_eq!(first.payload, Some(1));
    // Exactly two remain queued.
    assert!(pair.dispatch_once().is_some());
    assert!(pair.dispatch_once().is_some());
    assert!(pair.dispatch_once().is_none());
}

#[test]
fn empty_poll_leaves_cell_unchanged() {
    let pair = pair();
    let mut cell = StateCell::new(9u64);
    pair.poll_once(&mut cell);
    assert_eq!(cell.last_input, 9);
    assert_eq!(cell.last_output, None);
    assert!(!cell.loading);
}

#[test]
fn loading_flag_lifecycle() {
    let pair = pair();
    let mut cell = StateCell::new(0u64);
    assert!(pair.enqueue(request("op/echo", 5), &mut cell));
    assert!(cell.loading);
    // No response yet: the poller sees nothing and the flag stays raised.
    pair.poll_once(&mut cell);
    assert!(cell.loading);
    assert_eq!(cell.last_output, None);
    // A success arrives: one more poll lowers the flag and stores the value.
    assert!(pair.response_sender().complete(Outcome::Success(55)));
    pair.poll_once(&mut cell);
    assert!(!cell.loading);
    assert_eq!(cell.last_output, Some(55));
}

#[test]
fn failure_leaves_output_stale() {
    let pair = pair();
    let mut cell = StateCell::new(0u64);
    cell.last_output = Some(77);
    assert!(pair.enqueue(request("op/echo", 5), &mut cell));
    assert!(cell.loading);
    assert!(pair.response_sender().complete(Outcome::Failure));
    pair.poll_once(&mut cell);
    assert_eq!(cell.last_output, Some(77));
    assert!(!cell.loading);
}

#[test]
fn independent_pairs_never_cross_talk() {
    let mut registry = Registry::new();
    let numbers: ChannelPair<PlainRequest<u64>, u64> =
        registry.register(1).expect("fresh identifier");
    let texts: ChannelPair<PlainRequest<bool>, String> =
        registry.register(2).expect("fresh identifier");
    let mut number_cell = StateCell::new(0u64);
    let mut text_cell: StateCell<bool, String> = StateCell::new(false);

    // Enqueued in the same tick, each request lands only on its own pair.
    assert!(numbers.enqueue(request("op/number", 1), &mut number_cell));
    let text_request =
        PlainRequest::new("op/text".to_string(), Some(true)).expect("non-empty endpoint");
    assert!(texts.enqueue(text_request, &mut text_cell));

    let number_plan = numbers.dispatch_once().expect("a request is pending");
    assert_eq!(number_plan.endpoint, "op/number");
    assert!(numbers.dispatch_once().is_none());
    let text_plan = texts.dispatch_once().expect("a request is pending");
    assert_eq!(text_plan.endpoint, "op/text");
    assert!(texts.dispatch_once().is_none());

    // A completion on one pair is invisible to the other.
    assert!(numbers.response_sender().complete(Outcome::Success(10)));
    texts.poll_once(&mut text_cell);
    assert_eq!(text_cell.last_output, None);
    assert!(text_cell.loading);
    numbers.poll_once(&mut number_cell);
    assert_eq!(number_cell.last_output, Some(10));
    assert!(!number_cell.loading);
}

#[test]
fn completions_may_arrive_out_of_order() {
    let pair = pair();
    let mut cell = StateCell::new(0u64);
    assert!(pair.enqueue(request("op/slow", 1), &mut cell));
    assert!(pair.enqueue(request("op/fast", 2), &mut cell));
    let slow = pair.dispatch_once().expect("a request is pending");
    let fast = pair.dispatch_once().expect("a request is pending");
    assert_eq!(slow.endpoint, "op/slow");
    assert_eq!(fast.endpoint, "op/fast");
    // The fast call finishes first; its outcome is observed first.
    let sender = pair.response_sender();
    assert!(sender.complete(Outcome::Success(200)));
    pair.poll_once(&mut cell);
    assert_eq!(cell.last_output, Some(200));
    // The slow call finishes later and lands intact.
    assert!(sender.complete(Outcome::Success(100)));
    pair.poll_once(&mut cell);
    assert_eq!(cell.last_output, Some(100));
    assert!(!cell.loading);
}

#[test]
fn one_poll_takes_at_most_one_outcome() {
    let pair = pair();
    let mut cell = StateCell::new(0u64);
    let sender = pair.response_sender();
    assert!(sender.complete(Outcome::Success(1)));
    assert!(sender.complete(Outcome::Success(2)));
    pair.poll_once(&mut cell);
    assert_eq!(cell.last_output, Some(1));
    pair.poll_once(&mut cell);
    assert_eq!(cell.last_output, Some(2));
}

#[test]
fn duplicate_registration_fails_fast() {
    let mut registry = Registry::new();
    assert!(!registry.is_registered(7));
    let first: Option<ChannelPair<PlainRequest<u64>, u64>> = registry.register(7);
    assert!(first.is_some());
    assert!(registry.is_registered(7));
    let second: Option<ChannelPair<PlainRequest<u64>, u64>> = registry.register(7);
    assert!(second.is_none());
    let other: Option<ChannelPair<PlainRequest<u64>, u64>> = registry.register(8);
    assert!(other.is_some());
}

#[test]
fn empty_endpoint_is_refused() {
    assert!(PlainRequest::<u64>::new(String::new(), Some(1)).is_none());
    assert!(PlainRequest::<u64>::new("a".to_string(), None).is_some());
}

#[test]
fn plan_carries_endpoint_and_payload() {
    let with_payload = request("op/echo", 3);
    assert_eq!(with_payload.endpoint(), "op/echo");
    assert_eq!(with_payload.input(), Some(3));
    let plan = plan_of(&with_payload);
    assert_eq!(plan.endpoint, "op/echo");
    assert_eq!(plan.payload, Some(3));

    let bodiless = PlainRequest::<u64>::new("op/list".to_string(), None).expect("non-empty");
    let plan = plan_of(&bodiless);
    assert_eq!(plan.endpoint, "op/list");
    assert_eq!(plan.payload, None);
}

#[test]
fn outcome_of_keeps_success_and_collapses_failure() {
    assert!(matches!(outcome_of::<u64, String>(Ok(4)), Outcome::Success(4)));
    assert!(matches!(
        outcome_of::<u64, String>(Err("timed out".to_string())),
        Outcome::Failure
    ));
}

#[test]
fn completion_after_shutdown_reports_disconnect() {
    let pair = pair();
    let sender = pair.response_sender();
    assert!(sender.complete(Outcome::Success(1)));
    // Dropping the pair drops the response queue's receiving end; pushing a
    // late outcome then reports the lifecycle bug instead of queueing.
    drop(pair);
    assert!(!sender.complete(Outcome::Success(2)));
}

#[test]
fn dispatch_and_poll_share_a_tick() {
    let pair = pair();
    let mut cell = StateCell::new(0u64);
    assert!(pair.enqueue(request("op/echo", 1), &mut cell));
    // Same tick: the poller sees nothing (disjoint queues), the dispatcher
    // drains the request.
    pair.poll_once(&mut cell);
    assert!(cell.loading);
    let plan = pair.dispatch_once().expect("a request is pending");
    assert_eq!(plan.payload, Some(1));
    // The outcome lands on the next tick's poll.
    assert!(pair.response_sender().complete(Outcome::Success(11)));
    pair.poll_once(&mut cell);
    assert_eq!(cell.last_output, Some(11));
    assert!(!cell.loading);
}
