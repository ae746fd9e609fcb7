use pingbot::composer::compose;
use pingbot::router::CommandInvocation;
use pingbot::transport::prepare_send;

fn invocation(argument: &str) -> CommandInvocation {
    CommandInvocation {
        room_id: String::from("!r:x"),
        sender: String::from("@a:x"),
        origin_event_id: String::from("$e"),
        origin_timestamp: 1_000,
        argument_text: String::from(argument),
    }
}

#[test]
fn plain_body_without_argument() {
    let msg = compose(&invocation(""), 1_042);
    assert_eq!(msg.plain_body, "@a:x: Pong! (ping took 42 ms to arrive)");
}

#[test]
fn plain_body_with_argument() {
    let msg = compose(&invocation("hi"), 1_042);
    assert_eq!(msg.plain_body, "@a:x: Pong! (ping \"hi\" took 42 ms to arrive)");
}

#[test]
fn formatted_body_links_sender_and_event() {
    let msg = compose(&invocation(""), 1_042);
    assert_eq!(
        msg.formatted_body.as_deref(),
        Some(
            "<a href='https://matrix.to/#/@a:x'>@a:x</a>: Pong! \
             (<a href='https://matrix.to/#/!r:x/$e'>ping</a> took 42 ms to arrive)"
        )
    );
}

#[test]
fn formatted_body_quotes_argument() {
    let msg = compose(&invocation("hi"), 1_042);
    assert_eq!(
        msg.formatted_body.as_deref(),
        Some(
            "<a href='https://matrix.to/#/@a:x'>@a:x</a>: Pong! \
             (<a href='https://matrix.to/#/!r:x/$e'>ping</a> \"hi\" took 42 ms to arrive)"
        )
    );
}

#[test]
fn relation_targets_originating_event() {
    let msg = compose(&invocation("anything"), 1_042);
    let relation = msg.relation.expect("relation is always attached");
    assert_eq!(relation.relation_type, "xyz.maubot.pong");
    assert_eq!(relation.target_event_id, "$e");
}

#[test]
fn negative_elapsed_reported_as_is() {
    // Clock skew: the server stamped the event later than our clock reads.
    let msg = compose(&invocation(""), 995);
    assert_eq!(msg.plain_body, "@a:x: Pong! (ping took -5 ms to arrive)");
}

#[test]
fn zero_elapsed() {
    let msg = compose(&invocation(""), 1_000);
    assert_eq!(msg.plain_body, "@a:x: Pong! (ping took 0 ms to arrive)");
}

#[test]
fn large_elapsed_digits() {
    let msg = compose(&invocation(""), 1_000 + 1_234_567_890);
    assert_eq!(msg.plain_body, "@a:x: Pong! (ping took 1234567890 ms to arrive)");
}

#[test]
fn composition_is_idempotent() {
    let a = compose(&invocation("hi"), 1_042);
    let b = compose(&invocation("hi"), 1_042);
    assert_eq!(a.plain_body, b.plain_body);
    assert_eq!(a.formatted_body, b.formatted_body);
    let ra = a.relation.expect("relation attached");
    let rb = b.relation.expect("relation attached");
    assert_eq!(ra.relation_type, rb.relation_type);
    assert_eq!(ra.target_event_id, rb.target_event_id);
}

#[test]
fn send_request_carries_message_and_fresh_token() {
    let msg = compose(&invocation(""), 1_042);
    let plain = msg.plain_body.clone();
    let request = prepare_send(String::from("!r:x"), msg);
    assert_eq!(request.room_id, "!r:x");
    assert_eq!(request.message.plain_body, plain);
    assert_eq!(request.txn_id.chars().count(), 36);
    assert_eq!(request.txn_id.matches('-').count(), 4);
}
