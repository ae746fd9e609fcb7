use pingbot::config::Config;
use pingbot::dispatch::plan_batch;
use pingbot::event::{Event, MessageBody};
use pingbot::orchestrator::{Orchestrator, Phase};
use pingbot::sync::{Membership, RoomUpdate, SyncError, SyncOutcome, SyncResponse, TimelineEntry};

fn text_event(id: &str, body: &str) -> Event {
    Event {
        id: String::from(id),
        room_id: String::from("!room:example.org"),
        sender: String::from("@alice:example.org"),
        origin_timestamp: 1_000,
        body: MessageBody::Text(String::from(body)),
    }
}

fn response(next_batch: &str, events: Vec<Event>) -> SyncOutcome {
    SyncOutcome::Response(SyncResponse {
        next_batch: String::from(next_batch),
        rooms: vec![RoomUpdate {
            room_id: String::from("!room:example.org"),
            membership: Membership::Joined,
            entries: events.into_iter().map(TimelineEntry::Parsed).collect(),
        }],
    })
}

#[test]
fn loop_advances_cursor_across_rounds() {
    let mut orch = Orchestrator::new();

    let cursor = orch.begin_sync();
    assert_eq!(cursor, None);
    let batch = orch.complete_sync(response("batch-1", vec![])).expect("parses");
    assert!(batch.is_empty());
    orch.dispatch_issued();

    let cursor = orch.begin_sync();
    assert_eq!(cursor, Some(String::from("batch-1")));
    orch.complete_sync(response("batch-2", vec![])).expect("parses");
    orch.dispatch_issued();

    let cursor = orch.begin_sync();
    assert_eq!(cursor, Some(String::from("batch-2")));
}

#[test]
fn retry_after_transport_error_uses_same_cursor() {
    let mut orch = Orchestrator::new();
    orch.begin_sync();
    orch.complete_sync(response("batch-1", vec![])).expect("parses");
    orch.dispatch_issued();

    let attempted = orch.begin_sync();
    let err = orch.complete_sync(SyncOutcome::TransportFailed).expect_err("transport failed");
    assert!(matches!(err, SyncError::Transport));

    // The failed round returned the loop to idle; the retry carries the
    // very same cursor, byte for byte.
    let retried = orch.begin_sync();
    assert_eq!(retried, attempted);
    assert_eq!(retried, Some(String::from("batch-1")));
}

#[test]
fn auth_rejection_stops_the_loop() {
    let mut orch = Orchestrator::new();
    orch.begin_sync();
    let err = orch.complete_sync(SyncOutcome::AuthRejected).expect_err("auth rejected");
    assert!(matches!(err, SyncError::Auth));
    assert!(matches!(orch.current_phase(), Phase::Stopped));
}

#[test]
fn protocol_error_returns_loop_to_idle() {
    let mut orch = Orchestrator::new();
    orch.begin_sync();
    let err = orch.complete_sync(SyncOutcome::MalformedResponse).expect_err("malformed");
    assert!(matches!(err, SyncError::Protocol));
    assert!(matches!(orch.current_phase(), Phase::Idle));
    // The loop goes on: the next round starts from idle with the kept cursor.
    assert_eq!(orch.begin_sync(), None);
}

#[test]
fn failing_handler_does_not_prevent_siblings() {
    // Three events in one batch: the middle one's handler gets nothing to
    // do (its body is not plain text), the outer two each yield a reply.
    let batch = vec![
        text_event("$b", "!ping first"),
        Event { body: MessageBody::Other, ..text_event("$a", "") },
        text_event("$c", "!ping third"),
    ];
    let plans = plan_batch(&batch, "!ping", 1_042);
    assert_eq!(plans.len(), 3);
    let first = plans[0].as_ref().expect("first handler completed");
    assert_eq!(first.message.relation.as_ref().unwrap().target_event_id, "$b");
    assert_eq!(first.message.plain_body, "@alice:example.org: Pong! (ping \"first\" took 42 ms to arrive)");
    assert!(plans[1].is_none());
    let third = plans[2].as_ref().expect("third handler completed");
    assert_eq!(third.message.relation.as_ref().unwrap().target_event_id, "$c");
    assert_eq!(third.room_id, "!room:example.org");
}

#[test]
fn ignored_events_produce_no_reply() {
    let batch = vec![text_event("$a", "just chatting")];
    let plans = plan_batch(&batch, "!ping", 1_042);
    assert_eq!(plans.len(), 1);
    assert!(plans[0].is_none());
}

#[test]
fn needs_login_only_without_token() {
    let mut config = Config {
        homeserver_url: String::from("https://example.org"),
        user_id: String::from("@alice:example.org"),
        device_id: None,
        password: Some(String::from("pw")),
        auth_token: None,
    };
    assert!(config.needs_login());

    config.update_auth_details(String::from("DEVICE"), String::from("token-1"));
    assert!(!config.needs_login());
    assert_eq!(config.device_id, Some(String::from("DEVICE")));
    assert_eq!(config.auth_token, Some(String::from("token-1")));

    let config = Config {
        homeserver_url: String::from("https://example.org"),
        user_id: String::from("@alice:example.org"),
        device_id: None,
        password: None,
        auth_token: None,
    };
    assert!(!config.needs_login());
}
