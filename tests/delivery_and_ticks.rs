use notification_tray::delivery::DeliveryState;
use notification_tray::dispatch::Dispatch;
use notification_tray::poller::{
    notifications_url, tick, FetchOutcome, TickError, FETCH_TIMEOUT_SECS, POLL_INTERVAL_SECS,
};
use notification_tray::record::Notification;

fn rec(id: i64) -> Notification {
    Notification::new(id, format!("title {}", id), format!("body {}", id), format!("t{}", id))
}

fn ids(records: &[Notification]) -> Vec<i64> {
    records.iter().map(|r| r.id).collect()
}

#[test]
fn fresh_state_starts_at_zero() {
    assert_eq!(DeliveryState::new().last_seen_id(), 0);
}

#[test]
fn stale_and_equal_ids_are_dropped() {
    let k = 10;
    let mut state = DeliveryState::starting_after(k);
    let out = state.accept(&vec![rec(k), rec(k - 1), rec(k + 3)]);
    assert_eq!(ids(&out), vec![k + 3]);
    assert_eq!(state.last_seen_id(), k + 3);
}

#[test]
fn accepted_record_keeps_its_fields() {
    let mut state = DeliveryState::new();
    let out = state.accept(&vec![rec(7)]);
    assert_eq!(out.len(), 1);
    assert_eq!(out[0].title, "title 7");
    assert_eq!(out[0].message, "body 7");
    assert_eq!(out[0].timestamp, "t7");
}

#[test]
fn accepting_same_batch_twice_yields_nothing_new() {
    let mut state = DeliveryState::new();
    let batch = vec![rec(3), rec(1), rec(2)];
    assert_eq!(ids(&state.accept(&batch)), vec![3, 1, 2]);
    assert_eq!(state.last_seen_id(), 3);
    assert!(state.accept(&batch).is_empty());
    assert_eq!(state.last_seen_id(), 3);
}

#[test]
fn filter_uses_the_value_stored_before_the_batch() {
    let mut state = DeliveryState::starting_after(2);
    assert_eq!(ids(&state.accept(&vec![rec(5), rec(4), rec(5)])), vec![5, 4, 5]);
    assert_eq!(state.last_seen_id(), 5);
}

#[test]
fn last_seen_never_decreases() {
    let mut state = DeliveryState::new();
    let mut previous = state.last_seen_id();
    let batches = vec![vec![rec(4)], vec![rec(2), rec(1)], vec![], vec![rec(-3)], vec![rec(9), rec(6)]];
    for batch in &batches {
        state.accept(batch);
        assert!(state.last_seen_id() >= previous);
        previous = state.last_seen_id();
    }
    assert_eq!(state.last_seen_id(), 9);
}

#[test]
fn empty_batch_changes_nothing() {
    let mut state = DeliveryState::starting_after(4);
    assert!(state.accept(&vec![]).is_empty());
    assert_eq!(state.last_seen_id(), 4);
}

#[test]
fn non_positive_ids_are_never_fresh_at_start() {
    let mut state = DeliveryState::new();
    assert!(state.accept(&vec![rec(0), rec(-1), rec(i64::MIN)]).is_empty());
    assert_eq!(state.last_seen_id(), 0);
}

#[test]
fn largest_id_is_accepted_once() {
    let mut state = DeliveryState::new();
    assert_eq!(ids(&state.accept(&vec![rec(i64::MAX)])), vec![i64::MAX]);
    assert!(state.accept(&vec![rec(i64::MAX)]).is_empty());
    assert_eq!(state.last_seen_id(), i64::MAX);
}

#[test]
fn transport_failure_is_reported_and_inert() {
    let mut state = DeliveryState::starting_after(6);
    assert!(matches!(tick(&mut state, FetchOutcome::TransportFailed), Err(TickError::Transport)));
    assert_eq!(state.last_seen_id(), 6);
}

#[test]
fn unreadable_body_is_reported_and_inert() {
    let mut state = DeliveryState::starting_after(6);
    assert!(matches!(tick(&mut state, FetchOutcome::BodyUnreadable), Err(TickError::BodyRead)));
    assert_eq!(state.last_seen_id(), 6);
}

#[test]
fn malformed_body_dispatches_nothing_and_next_tick_is_normal() {
    let mut state = DeliveryState::new();
    assert!(matches!(tick(&mut state, FetchOutcome::Malformed), Err(TickError::Parse)));
    assert_eq!(state.last_seen_id(), 0);
    let out = tick(&mut state, FetchOutcome::Parsed(vec![rec(1), rec(2)])).unwrap();
    assert_eq!(ids(&out), vec![1, 2]);
    assert_eq!(state.last_seen_id(), 2);
}

#[test]
fn failed_show_does_not_stop_the_batch() {
    let mut dispatch = Dispatch::start(vec![rec(1), rec(2), rec(3)]);
    let outcomes = [true, false, true];
    let mut titles = Vec::new();
    for shown in outcomes {
        let request = dispatch.next_request().unwrap();
        titles.push(request.title);
        dispatch.settle(shown);
    }
    assert!(dispatch.next_request().is_none());
    assert!(dispatch.is_finished());
    assert_eq!(titles, vec!["title 1", "title 2", "title 3"]);
    assert_eq!(dispatch.shown_ids(), vec![1, 3]);
    assert_eq!(dispatch.failed_ids(), vec![2]);
}

#[test]
fn request_carries_title_and_message() {
    let dispatch = Dispatch::start(vec![Notification::new(
        4,
        "Build".to_string(),
        "finished".to_string(),
        "2024-01-01T00:00:00Z".to_string(),
    )]);
    let request = dispatch.next_request().unwrap();
    assert_eq!(request.title, "Build");
    assert_eq!(request.body, "finished");
    assert!(!dispatch.is_finished());
}

#[test]
fn empty_dispatch_is_finished_at_once() {
    let dispatch = Dispatch::start(vec![]);
    assert!(dispatch.is_finished());
    assert!(dispatch.next_request().is_none());
    assert!(dispatch.shown_ids().is_empty());
    assert!(dispatch.failed_ids().is_empty());
}

#[test]
fn same_listing_on_two_ticks_shows_once() {
    let listing = || {
        vec![Notification::new(1, "A".to_string(), "x".to_string(), "t1".to_string())]
    };
    let mut state = DeliveryState::new();

    let first = tick(&mut state, FetchOutcome::Parsed(listing())).unwrap();
    let mut dispatch = Dispatch::start(first);
    let mut shown = Vec::new();
    while let Some(request) = dispatch.next_request() {
        shown.push((request.title, request.body));
        dispatch.settle(true);
    }
    assert_eq!(shown, vec![("A".to_string(), "x".to_string())]);

    let second = tick(&mut state, FetchOutcome::Parsed(listing())).unwrap();
    assert!(second.is_empty());
    assert!(Dispatch::start(second).next_request().is_none());
}

#[test]
fn poller_configuration() {
    assert_eq!(POLL_INTERVAL_SECS, 30);
    assert!(FETCH_TIMEOUT_SECS > 0 && FETCH_TIMEOUT_SECS < POLL_INTERVAL_SECS);
    assert_eq!(notifications_url(), "http://localhost:3000/notifications");
}

#[test]
fn cloned_record_is_equal_field_by_field() {
    let original = rec(12);
    let copy = original.clone();
    assert_eq!(copy.id, 12);
    assert_eq!(copy.title, original.title);
    assert_eq!(copy.message, original.message);
    assert_eq!(copy.timestamp, original.timestamp);
}
