use settings_app::async_handler::{
    async_response, AsyncHandler, AsyncHandlerResponse, ChannelStatus, DispatchError, Payload,
    Routed,
};
use settings_app::bluetooth_screen::{BluetoothScreen, ResponseError};

fn ready_handler() -> AsyncHandler {
    let mut h = AsyncHandler::new();
    h.init();
    h
}

fn flag_of(r: Routed) -> Option<bool> {
    match r {
        Routed::Delivered(Payload::Flag(b)) => Some(*b),
        _ => None,
    }
}

#[test]
fn call_before_init_is_detected() {
    let mut h = AsyncHandler::new();
    assert_eq!(h.channel(), ChannelStatus::Uninitialized);
    assert_eq!(h.call("status-1"), Err(DispatchError::ChannelNotInitialized));
    assert_eq!(h.outstanding_count(), 0);
}

#[test]
fn init_is_idempotent() {
    let mut h = ready_handler();
    let t = h.call("a").unwrap();
    assert!(h.complete(t, Some(Payload::Flag(true))));
    h.init();
    assert_eq!(h.channel(), ChannelStatus::Open);
    assert_eq!(h.pending_responses(), 1);
}

#[test]
fn status_scenario_sets_status_once() {
    let mut h = ready_handler();
    let mut screen = BluetoothScreen::new();
    let t = screen.request_status(&mut h, "status-1").unwrap();
    assert!(!screen.status());
    assert!(h.complete(t, Some(Payload::Flag(true))));
    let msg = h.next_response().unwrap();
    assert_eq!(msg.id(), "status-1");
    assert_eq!(screen.update(&msg), Ok(()));
    assert!(screen.status());
    // The continuation ran once: the same response again is no longer awaited.
    let again = AsyncHandlerResponse::Completed {
        id: "status-1".to_string(),
        payload: Payload::Flag(false),
    };
    assert_eq!(screen.update(&again), Ok(()));
    assert!(screen.status());
}

#[test]
fn overlapping_calls_reverse_completion() {
    let mut h = ready_handler();
    let tx = h.call("x").unwrap();
    let ty = h.call("y").unwrap();
    assert!(h.complete(ty, Some(Payload::Flag(false))));
    assert!(h.complete(tx, Some(Payload::Flag(true))));
    let first = h.next_response().unwrap();
    let second = h.next_response().unwrap();
    assert!(h.next_response().is_none());
    assert!(matches!(async_response(&first, "x"), Routed::Ignored));
    assert_eq!(flag_of(async_response(&first, "y")), Some(false));
    assert_eq!(flag_of(async_response(&second, "x")), Some(true));
    assert!(matches!(async_response(&second, "y"), Routed::Ignored));
}

#[test]
fn unique_request_gets_one_response() {
    let mut h = ready_handler();
    let t = h.call("only").unwrap();
    let other = h.call("other").unwrap();
    assert!(h.complete(t, Some(Payload::Level(3))));
    assert!(h.complete(other, None));
    let mut matching = 0;
    while let Some(r) = h.next_response() {
        if let Routed::Delivered(Payload::Level(v)) = async_response(&r, "only") {
            assert_eq!(*v, 3);
            matching += 1;
        }
    }
    assert_eq!(matching, 1);
}

#[test]
fn shared_identifier_is_ambiguous() {
    let mut h = ready_handler();
    let a = h.call("dup").unwrap();
    let b = h.call("dup").unwrap();
    assert_ne!(a, b);
    assert!(h.complete(b, Some(Payload::Flag(false))));
    assert!(h.complete(a, Some(Payload::Flag(true))));
    let r1 = h.next_response().unwrap();
    let r2 = h.next_response().unwrap();
    // Both responses route to the same site; only the payload order tells them apart.
    assert_eq!(flag_of(async_response(&r1, "dup")), Some(false));
    assert_eq!(flag_of(async_response(&r2, "dup")), Some(true));
}

#[test]
fn all_completions_delivered_any_order() {
    let mut h = ready_handler();
    let ids = ["a", "b", "c", "d"];
    let tickets: Vec<u64> = ids.iter().map(|id| h.call(id).unwrap()).collect();
    for &i in &[2usize, 0, 3, 1] {
        assert!(h.complete(tickets[i], Some(Payload::Text(ids[i].to_string()))));
    }
    assert_eq!(h.outstanding_count(), 0);
    let mut got = Vec::new();
    while let Some(r) = h.next_response() {
        got.push(r.id().clone());
    }
    assert_eq!(got, vec!["c", "a", "d", "b"]);
}

#[test]
fn unknown_ticket_is_rejected() {
    let mut h = ready_handler();
    let t = h.call("a").unwrap();
    assert!(!h.complete(t + 7, Some(Payload::Flag(true))));
    assert!(h.complete(t, Some(Payload::Flag(true))));
    assert!(!h.complete(t, Some(Payload::Flag(true))));
    assert_eq!(h.pending_responses(), 1);
}

#[test]
fn closed_channel_drops_responses() {
    let mut h = ready_handler();
    let t = h.call("a").unwrap();
    let u = h.call("b").unwrap();
    assert!(h.complete(t, Some(Payload::Flag(true))));
    h.close();
    assert_eq!(h.channel(), ChannelStatus::Closed);
    assert_eq!(h.pending_responses(), 0);
    assert!(h.complete(u, Some(Payload::Flag(true))));
    assert!(h.next_response().is_none());
    h.init();
    assert_eq!(h.channel(), ChannelStatus::Closed);
}

#[test]
fn backend_failure_reaches_continuation() {
    let mut h = ready_handler();
    let mut screen = BluetoothScreen::new();
    let t = screen.request_status(&mut h, "bt").unwrap();
    assert!(h.complete(t, Some(Payload::Flag(true))));
    let msg = h.next_response().unwrap();
    screen.update(&msg).unwrap();
    assert!(screen.status());
    let t2 = screen.request_status(&mut h, "bt").unwrap();
    assert!(h.complete(t2, None));
    let msg = h.next_response().unwrap();
    assert!(matches!(async_response(&msg, "bt"), Routed::Failed));
    assert_eq!(screen.update(&msg), Ok(()));
    assert!(!screen.status());
}

#[test]
fn mismatched_payload_is_reported() {
    let mut h = ready_handler();
    let mut screen = BluetoothScreen::new();
    let t = screen.request_status(&mut h, "bt").unwrap();
    assert!(h.complete(t, Some(Payload::Level(1))));
    let msg = h.next_response().unwrap();
    assert_eq!(screen.update(&msg), Err(ResponseError::TypeMismatch));
    assert!(!screen.status());
}

#[test]
fn unrelated_response_leaves_screen_unchanged() {
    let mut h = ready_handler();
    let mut screen = BluetoothScreen::new();
    screen.request_status(&mut h, "bt").unwrap();
    let msg = AsyncHandlerResponse::Completed { id: "wifi".to_string(), payload: Payload::Flag(true) };
    assert_eq!(screen.update(&msg), Ok(()));
    assert!(!screen.status());
    let failed = AsyncHandlerResponse::Failed { id: "wifi".to_string() };
    assert_eq!(screen.update(&failed), Ok(()));
    assert!(!screen.status());
    assert!(screen.devices().is_empty());
}

#[test]
fn request_without_channel_keeps_screen_idle() {
    let mut h = AsyncHandler::new();
    let mut screen = BluetoothScreen::new();
    assert_eq!(screen.request_status(&mut h, "bt"), Err(DispatchError::ChannelNotInitialized));
    let msg = AsyncHandlerResponse::Completed { id: "bt".to_string(), payload: Payload::Flag(true) };
    assert_eq!(screen.update(&msg), Ok(()));
    assert!(!screen.status());
}

#[test]
fn tickets_increase() {
    let mut h = ready_handler();
    assert_eq!(h.call("a"), Ok(0));
    assert_eq!(h.call("b"), Ok(1));
    assert_eq!(h.outstanding_count(), 2);
}

#[test]
fn names_payload_routes() {
    let mut h = ready_handler();
    let t = h.call("devices").unwrap();
    assert!(h.complete(t, Some(Payload::Names(vec!["pod".to_string(), "pad".to_string()]))));
    let r = h.next_response().unwrap();
    match async_response(&r, "devices") {
        Routed::Delivered(Payload::Names(v)) => assert_eq!(v, &vec!["pod".to_string(), "pad".to_string()]),
        _ => panic!("expected a list of names"),
    }
}
