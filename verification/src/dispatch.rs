use vstd::prelude::*;

use crate::composer::{compose, compose_view, MessageView, OutgoingMessage};
use crate::event::{Event, EventView};
use crate::router::{invocation_of, route, route_matches};

verus! {

/// One planned reply: where to send it and what to send.
pub struct Reply {
    pub room_id: String,
    pub message: OutgoingMessage,
}

/// Ghost mirror of `Reply`.
#[verifier::ext_equal]
pub ghost struct ReplyView {
    pub room_id: Seq<char>,
    pub message: MessageView,
}

impl View for Reply {
    type V = ReplyView;

    open spec fn view(&self) -> ReplyView {
        ReplyView { room_id: self.room_id@, message: self.message@ }
    }
}

/// The view of an optional reply.
pub open spec fn opt_reply_view(r: Option<Reply>) -> Option<ReplyView> {
    match r {
        Some(rep) => Some(rep@),
        None => None,
    }
}

/// What handling one event yields: a reply exactly when the event routes,
/// and then a reply that is a function of that event, the prefix and the
/// clock sample alone — no other event enters into it.
pub open spec fn plan_view(e: EventView, prefix: Seq<char>, now: u64) -> Option<ReplyView> {
    if route_matches(e.body, prefix) {
        Some(
            ReplyView {
                room_id: e.room_id,
                message: compose_view(invocation_of(e, prefix), now),
            },
        )
    } else {
        None
    }
}

/// The handler chain for one event: route, then compose. Events that do
/// not route produce nothing, which is not an error.
pub fn plan_event(event: &Event, prefix: &str, now: u64) -> (r: Option<Reply>)
    ensures
        opt_reply_view(r) == plan_view(event@, prefix@, now),
{
    match route(event, prefix) {
        Some(inv) => {
            let message = compose(&inv, now);
            let reply = Reply { room_id: inv.room_id, message };
            proof {
                assert(opt_reply_view(Some(reply)) =~~= plan_view(event@, prefix@, now));
            }
            Some(reply)
        },
        None => None,
    }
}

/// Plans a whole batch: one entry per event, in batch order, each entry
/// the handler chain of its own event and of nothing else.
pub fn plan_batch(events: &Vec<Event>, prefix: &str, now: u64) -> (r: Vec<Option<Reply>>)
    ensures
        r@.len() == events@.len(),
        forall|i: int|
            0 <= i < events@.len() ==> opt_reply_view(r@[i]) == plan_view(
                events@[i]@,
                prefix@,
                now,
            ),
{
    let mut out: Vec<Option<Reply>> = Vec::new();
    let mut i: usize = 0;
    while i < events.len()
        invariant
            0 <= i <= events@.len(),
            out@.len() == i,
            forall|j: int|
                0 <= j < i ==> opt_reply_view(out@[j]) == plan_view(events@[j]@, prefix@, now),
        decreases events@.len() - i,
    {
        let p = plan_event(&events[i], prefix, now);
        out.push(p);
        i = i + 1;
    }
    out
}

/// Dispatch isolation: each event's outcome is a function of that event
/// alone. If two batches agree everywhere except at position `j`, every
/// other position is handled identically — whatever happens at `j`, a
/// failing handler included, cannot change or prevent the sibling
/// outcomes.
pub proof fn lemma_dispatch_isolation(
    b1: Seq<EventView>,
    b2: Seq<EventView>,
    prefix: Seq<char>,
    now: u64,
    j: int,
)
    requires
        b1.len() == b2.len(),
        forall|i: int| 0 <= i < b1.len() && i != j ==> b1[i] == b2[i],
    ensures
        forall|i: int|
            0 <= i < b1.len() && i != j ==> plan_view(b1[i], prefix, now) == plan_view(
                b2[i],
                prefix,
                now,
            ),
{
}

} // verus!
