use pingbot::event::{Event, MessageBody};
use pingbot::router::route;

fn text_event(body: &str) -> Event {
    Event {
        id: String::from("$evt:example.org"),
        room_id: String::from("!room:example.org"),
        sender: String::from("@alice:example.org"),
        origin_timestamp: 1_000,
        body: MessageBody::Text(String::from(body)),
    }
}

#[test]
fn bare_prefix_matches() {
    let inv = route(&text_event("!ping"), "!ping").expect("should match");
    assert_eq!(inv.argument_text, "");
    assert_eq!(inv.room_id, "!room:example.org");
    assert_eq!(inv.sender, "@alice:example.org");
    assert_eq!(inv.origin_event_id, "$evt:example.org");
    assert_eq!(inv.origin_timestamp, 1_000);
}

#[test]
fn prefix_with_arguments_matches() {
    let inv = route(&text_event("!ping extra text"), "!ping").expect("should match");
    assert_eq!(inv.argument_text, "extra text");
}

#[test]
fn longer_word_does_not_match() {
    assert!(route(&text_event("!pingpong"), "!ping").is_none());
}

#[test]
fn prefix_not_at_start_does_not_match() {
    assert!(route(&text_event("hello !ping"), "!ping").is_none());
}

#[test]
fn non_text_body_does_not_match() {
    let event = Event {
        id: String::from("$evt:example.org"),
        room_id: String::from("!room:example.org"),
        sender: String::from("@alice:example.org"),
        origin_timestamp: 1_000,
        body: MessageBody::Notice(String::from("!ping")),
    };
    assert!(route(&event, "!ping").is_none());
    let event = Event { body: MessageBody::Other, ..text_event("") };
    assert!(route(&event, "!ping").is_none());
}

#[test]
fn argument_surrounding_whitespace_trimmed() {
    let inv = route(&text_event("!ping  hello world"), "!ping").expect("should match");
    assert_eq!(inv.argument_text, "hello world");
}

#[test]
fn argument_internal_whitespace_kept() {
    let inv = route(&text_event("!ping  a  b \t"), "!ping").expect("should match");
    assert_eq!(inv.argument_text, "a  b");
}

#[test]
fn trailing_whitespace_only_gives_empty_argument() {
    let inv = route(&text_event("!ping \t "), "!ping").expect("should match");
    assert_eq!(inv.argument_text, "");
}

#[test]
fn case_sensitive_match() {
    assert!(route(&text_event("!Ping"), "!ping").is_none());
}
