use vstd::prelude::*;

use crate::event::Event;

verus! {

/// The account's standing in a room, as reported by one sync response.
#[derive(Clone, Copy)]
pub enum Membership {
    Joined,
    Invited,
    Left,
}

/// One raw timeline entry: either an event that parsed, or one whose shape
/// could not be read.
pub enum TimelineEntry {
    Parsed(Event),
    Malformed,
}

/// The timeline a single room contributed to one sync response, in the
/// server-assigned order.
pub struct RoomUpdate {
    pub room_id: String,
    pub membership: Membership,
    pub entries: Vec<TimelineEntry>,
}

/// A sync response whose envelope parsed: the continuation token and the
/// per-room timelines, in the order received.
pub struct SyncResponse {
    pub next_batch: String,
    pub rooms: Vec<RoomUpdate>,
}

/// What one sync round trip came back with.
pub enum SyncOutcome {
    /// A response with a readable envelope.
    Response(SyncResponse),
    /// The request never completed: network, timeout or HTTP-level failure.
    TransportFailed,
    /// The response's shape could not be read at all, before any
    /// continuation token was extracted.
    MalformedResponse,
    /// The server rejected the credentials.
    AuthRejected,
}

/// Why a sync round yielded no batch.
#[derive(Debug)]
pub enum SyncError {
    Transport,
    Protocol,
    Auth,
}

/// Owner of the cursor. The private field is the single-writer discipline:
/// nothing outside this type can touch the cursor, and the one method that
/// takes `&mut self` advances it only on the success path.
pub struct SyncEngine {
    cursor: Option<String>,
}

/// The view of an optional token.
pub open spec fn opt_string_view(o: Option<String>) -> Option<Seq<char>> {
    match o {
        Some(s) => Some(s@),
        None => None,
    }
}

/// The events of one room's timeline that parsed, in timeline order.
pub open spec fn room_events(entries: Seq<TimelineEntry>) -> Seq<Event>
    decreases entries.len(),
{
    if entries.len() == 0 {
        Seq::empty()
    } else {
        (match entries[0] {
            TimelineEntry::Parsed(e) => seq![e],
            TimelineEntry::Malformed => Seq::empty(),
        }) + room_events(entries.drop_first())
    }
}

/// The batch a response yields: the events of joined rooms only, rooms in
/// the order received, events within a room in timeline order.
pub open spec fn extract_joined(rooms: Seq<RoomUpdate>) -> Seq<Event>
    decreases rooms.len(),
{
    if rooms.len() == 0 {
        Seq::empty()
    } else {
        (if rooms[0].membership is Joined {
            room_events(rooms[0].entries@)
        } else {
            Seq::empty()
        }) + extract_joined(rooms.drop_first())
    }
}

/// Every entry of one timeline parsed.
pub open spec fn entries_parse(entries: Seq<TimelineEntry>) -> bool {
    forall|i: int| 0 <= i < entries.len() ==> entries[i] is Parsed
}

/// Every entry of every joined room parsed; timelines of rooms the account
/// has not joined are ignored, malformed or not.
pub open spec fn batch_parses(rooms: Seq<RoomUpdate>) -> bool {
    forall|i: int|
        0 <= i < rooms.len() ==> (rooms[i].membership is Joined ==> entries_parse(
            rooms[i].entries@,
        ))
}

/// How one sync outcome moves the cursor: a readable response advances it
/// to that response's continuation token, and nothing else touches it.
pub open spec fn cursor_after_outcome(c: Option<Seq<char>>, o: SyncOutcome) -> Option<Seq<char>> {
    match o {
        SyncOutcome::Response(resp) => Some(resp.next_batch@),
        _ => c,
    }
}

/// The cursor after a whole run of sync rounds, oldest outcome first.
pub open spec fn cursor_after_run(c0: Option<Seq<char>>, outcomes: Seq<SyncOutcome>) -> Option<
    Seq<char>,
>
    decreases outcomes.len(),
{
    if outcomes.len() == 0 {
        c0
    } else {
        cursor_after_run(cursor_after_outcome(c0, outcomes[0]), outcomes.drop_first())
    }
}

/// The continuation token of a response outcome.
pub open spec fn response_batch(o: SyncOutcome) -> Seq<char>
    recommends
        o is Response,
{
    match o {
        SyncOutcome::Response(resp) => resp.next_batch@,
        _ => Seq::empty(),
    }
}

fn entries_all_parsed(entries: &Vec<TimelineEntry>) -> (r: bool)
    ensures
        r == entries_parse(entries@),
{
    let mut i: usize = 0;
    while i < entries.len()
        invariant
            0 <= i <= entries@.len(),
            forall|j: int| 0 <= j < i ==> entries@[j] is Parsed,
        decreases entries@.len() - i,
    {
        match &entries[i] {
            TimelineEntry::Malformed => {
                proof {
                    assert(!(entries@[i as int] is Parsed));
                }
                return false;
            },
            TimelineEntry::Parsed(_) => {},
        }
        i = i + 1;
    }
    true
}

fn rooms_all_parse(rooms: &Vec<RoomUpdate>) -> (r: bool)
    ensures
        r == batch_parses(rooms@),
{
    let mut i: usize = 0;
    while i < rooms.len()
        invariant
            0 <= i <= rooms@.len(),
            forall|j: int|
                0 <= j < i ==> (rooms@[j].membership is Joined ==> entries_parse(
                    rooms@[j].entries@,
                )),
        decreases rooms@.len() - i,
    {
        let room = &rooms[i];
        let joined = match room.membership {
            Membership::Joined => true,
            _ => false,
        };
        if joined && !entries_all_parsed(&room.entries) {
            proof {
                assert(rooms@[i as int].membership is Joined && !entries_parse(
                    rooms@[i as int].entries@,
                ));
            }
            return false;
        }
        i = i + 1;
    }
    true
}

fn collect_room(entries: Vec<TimelineEntry>, out: &mut Vec<Event>)
    ensures
        final(out)@ == old(out)@ + room_events(entries@),
{
    let ghost orig = entries@;
    let ghost base = old(out)@;
    let mut entries = entries;
    while entries.len() > 0
        invariant
            out@ + room_events(entries@) == base + room_events(orig),
        decreases entries@.len(),
    {
        let ghost prev = entries@;
        let entry = entries.remove(0);
        proof {
            assert(prev.remove(0) =~= prev.drop_first());
        }
        match entry {
            TimelineEntry::Parsed(ev) => {
                out.push(ev);
            },
            TimelineEntry::Malformed => {},
        }
        proof {
            assert(out@ + room_events(entries@) =~= base + room_events(orig));
        }
    }
    proof {
        assert(final(out)@ =~= base + room_events(orig));
    }
}

fn collect_joined(rooms: Vec<RoomUpdate>) -> (r: Vec<Event>)
    ensures
        r@ == extract_joined(rooms@),
{
    let ghost orig = rooms@;
    let mut rooms = rooms;
    let mut out: Vec<Event> = Vec::new();
    while rooms.len() > 0
        invariant
            out@ + extract_joined(rooms@) == extract_joined(orig),
        decreases rooms@.len(),
    {
        let ghost prev = rooms@;
        let room = rooms.remove(0);
        proof {
            assert(prev.remove(0) =~= prev.drop_first());
        }
        let joined = match room.membership {
            Membership::Joined => true,
            _ => false,
        };
        if joined {
            collect_room(room.entries, &mut out);
        }
        proof {
            assert(out@ + extract_joined(rooms@) =~= extract_joined(orig));
        }
    }
    proof {
        assert(out@ =~= extract_joined(orig));
    }
    out
}

impl SyncEngine {
    /// The cursor as an abstract optional token; `None` means "from now".
    pub closed spec fn cursor_view(&self) -> Option<Seq<char>> {
        opt_string_view(self.cursor)
    }

    /// A fresh engine syncs "from now": it holds no cursor yet.
    pub fn new() -> (r: SyncEngine)
        ensures
            r.cursor_view() is None,
    {
        SyncEngine { cursor: None }
    }

    /// The cursor the next request must carry: exactly the stored one.
    pub fn request_cursor(&self) -> (r: Option<String>)
        ensures
            opt_string_view(r) == self.cursor_view(),
    {
        match &self.cursor {
            Some(s) => Some(s.clone()),
            None => None,
        }
    }

    /// Takes in what one sync round trip came back with.
    ///
    /// A readable response advances the cursor to its continuation token —
    /// and only then; every failure leaves the cursor exactly as it was, so
    /// a retry carries the same token. When every entry of every joined
    /// room parses, the batch is the joined rooms' events in order; when
    /// some entry is malformed, the cursor still advances and the whole
    /// batch is dropped with a protocol error (at-most-once delivery:
    /// events are never redelivered, so an unreadable batch is lost rather
    /// than poisoning the cursor).
    pub fn absorb(&mut self, outcome: SyncOutcome) -> (r: Result<Vec<Event>, SyncError>)
        ensures
            final(self).cursor_view() == cursor_after_outcome(old(self).cursor_view(), outcome),
            outcome matches SyncOutcome::Response(resp) ==> {
                &&& (r is Ok <==> batch_parses(resp.rooms@))
                &&& (r matches Ok(events) ==> events@ == extract_joined(resp.rooms@))
                &&& (r matches Err(e) ==> e is Protocol)
            },
            outcome is TransportFailed ==> (r matches Err(e) && e is Transport),
            outcome is MalformedResponse ==> (r matches Err(e) && e is Protocol),
            outcome is AuthRejected ==> (r matches Err(e) && e is Auth),
    {
        match outcome {
            SyncOutcome::Response(resp) => {
                let SyncResponse { next_batch, rooms } = resp;
                self.cursor = Some(next_batch);
                let parses = rooms_all_parse(&rooms);
                let events = collect_joined(rooms);
                if parses {
                    Ok(events)
                } else {
                    Err(SyncError::Protocol)
                }
            },
            SyncOutcome::TransportFailed => Err(SyncError::Transport),
            SyncOutcome::MalformedResponse => Err(SyncError::Protocol),
            SyncOutcome::AuthRejected => Err(SyncError::Auth),
        }
    }
}

proof fn lemma_cursor_after_run_snoc(c0: Option<Seq<char>>, outcomes: Seq<SyncOutcome>, n: int)
    requires
        0 <= n < outcomes.len(),
    ensures
        cursor_after_run(c0, outcomes.take(n + 1)) == cursor_after_outcome(
            cursor_after_run(c0, outcomes.take(n)),
            outcomes[n],
        ),
    decreases n,
{
    if n == 0 {
        let one = outcomes.take(1);
        let c1 = cursor_after_outcome(c0, outcomes[0]);
        assert(one.len() == 1);
        assert(one[0] == outcomes[0]);
        assert(one.drop_first() =~= Seq::<SyncOutcome>::empty());
        assert(cursor_after_run(c0, one) == cursor_after_run(c1, one.drop_first()));
        assert(cursor_after_run(c1, one.drop_first()) == c1);
        assert(outcomes.take(0) =~= Seq::<SyncOutcome>::empty());
        assert(cursor_after_run(c0, outcomes.take(0)) == c0);
    } else {
        let t = outcomes.drop_first();
        let c1 = cursor_after_outcome(c0, outcomes[0]);
        lemma_cursor_after_run_snoc(c1, t, n - 1);
        assert(outcomes.take(n + 1)[0] == outcomes[0]);
        assert(outcomes.take(n + 1).drop_first() =~= t.take(n));
        assert(cursor_after_run(c0, outcomes.take(n + 1)) == cursor_after_run(c1, t.take(n)));
        assert(t[n - 1] == outcomes[n]);
        assert(cursor_after_run(c1, t.take(n)) == cursor_after_outcome(
            cursor_after_run(c1, t.take(n - 1)),
            outcomes[n],
        ));
        assert(outcomes.take(n)[0] == outcomes[0]);
        assert(outcomes.take(n).drop_first() =~= t.take(n - 1));
        assert(outcomes.take(n).len() == n);
        assert(cursor_after_run(c0, outcomes.take(n)) == cursor_after_run(c1, t.take(n - 1)));
    }
}

/// Cursor monotonicity: over any run of sync rounds, once round `n` comes
/// back with a readable response, the cursor that round `n + 1` carries is
/// exactly the continuation token round `n` returned — whatever the cursor
/// was before, it is replaced, never reused and never rolled back.
pub proof fn lemma_cursor_monotonic(c0: Option<Seq<char>>, outcomes: Seq<SyncOutcome>, n: int)
    requires
        0 <= n < outcomes.len(),
        outcomes[n] is Response,
    ensures
        cursor_after_run(c0, outcomes.take(n + 1)) == Some(response_batch(outcomes[n])),
{
    lemma_cursor_after_run_snoc(c0, outcomes, n);
}

/// No loss on retry: when round `n` fails — transport failure, unreadable
/// response or rejected credentials — the cursor after it is the cursor
/// before it, so the retry carries the same token, byte for byte.
pub proof fn lemma_no_loss_on_retry(c0: Option<Seq<char>>, outcomes: Seq<SyncOutcome>, n: int)
    requires
        0 <= n < outcomes.len(),
        !(outcomes[n] is Response),
    ensures
        cursor_after_run(c0, outcomes.take(n + 1)) == cursor_after_run(c0, outcomes.take(n)),
{
    lemma_cursor_after_run_snoc(c0, outcomes, n);
}

} // verus!
