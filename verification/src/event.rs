use vstd::prelude::*;

verus! {

/// The payload of a room message, reduced to the closed set of shapes the
/// router distinguishes: a plain-text body, a notice body, or anything else.
#[derive(Debug)]
pub enum MessageBody {
    Text(String),
    Notice(String),
    Other,
}

/// Ghost mirror of `MessageBody` over character sequences.
pub ghost enum BodyView {
    Text(Seq<char>),
    Notice(Seq<char>),
    Other,
}

impl View for MessageBody {
    type V = BodyView;

    open spec fn view(&self) -> BodyView {
        match self {
            MessageBody::Text(s) => BodyView::Text(s@),
            MessageBody::Notice(s) => BodyView::Notice(s@),
            MessageBody::Other => BodyView::Other,
        }
    }
}

/// One timeline event, as handed out by the sync engine: an immutable record
/// read by every downstream component.
#[derive(Debug)]
pub struct Event {
    pub id: String,
    pub room_id: String,
    pub sender: String,
    /// Server-assigned origin timestamp, in milliseconds since the epoch.
    pub origin_timestamp: u64,
    pub body: MessageBody,
}

/// Ghost mirror of `Event` over character sequences.
pub ghost struct EventView {
    pub id: Seq<char>,
    pub room_id: Seq<char>,
    pub sender: Seq<char>,
    pub origin_timestamp: u64,
    pub body: BodyView,
}

impl View for Event {
    type V = EventView;

    open spec fn view(&self) -> EventView {
        EventView {
            id: self.id@,
            room_id: self.room_id@,
            sender: self.sender@,
            origin_timestamp: self.origin_timestamp,
            body: self.body@,
        }
    }
}

} // verus!
