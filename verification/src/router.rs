use vstd::prelude::*;

use vstd::string::{StrSliceExecFns, StringExecFns};

use crate::event::{BodyView, Event, EventView, MessageBody};

verus! {

/// Whitespace, for token splitting and argument trimming.
pub open spec fn is_space_char(c: char) -> bool {
    c == ' ' || c == '\t' || c == '\n' || c == '\r'
}

/// `s` with its leading whitespace removed.
pub open spec fn trim_start_spec(s: Seq<char>) -> Seq<char>
    decreases s.len(),
{
    if s.len() > 0 && is_space_char(s[0]) {
        trim_start_spec(s.drop_first())
    } else {
        s
    }
}

/// `s` with its trailing whitespace removed.
pub open spec fn trim_end_spec(s: Seq<char>) -> Seq<char>
    decreases s.len(),
{
    if s.len() > 0 && is_space_char(s[s.len() - 1]) {
        trim_end_spec(s.drop_last())
    } else {
        s
    }
}

/// `s` with surrounding whitespace removed; internal whitespace is kept.
pub open spec fn trimmed(s: Seq<char>) -> Seq<char> {
    trim_end_spec(trim_start_spec(s))
}

/// The body's leading token equals the prefix: the body starts with the
/// prefix, and the prefix is followed by the end of the body or by
/// whitespace (so a longer word that merely begins with the prefix does
/// not count).
pub open spec fn prefix_matches(body: Seq<char>, prefix: Seq<char>) -> bool {
    &&& body.len() >= prefix.len()
    &&& body.subrange(0, prefix.len() as int) == prefix
    &&& (body.len() == prefix.len() || is_space_char(body[prefix.len() as int]))
}

/// An event is routed exactly when its body is plain text and that text's
/// leading token equals the command prefix.
pub open spec fn route_matches(body: BodyView, prefix: Seq<char>) -> bool {
    body matches BodyView::Text(b) && prefix_matches(b, prefix)
}

/// The command argument: everything after the prefix, with surrounding
/// whitespace removed.
pub open spec fn argument_of(body: Seq<char>, prefix: Seq<char>) -> Seq<char>
    recommends
        prefix.len() <= body.len(),
{
    trimmed(body.subrange(prefix.len() as int, body.len() as int))
}

/// A recognized command, derived from one event; it lives only for the
/// duration of that event's dispatch.
pub struct CommandInvocation {
    pub room_id: String,
    pub sender: String,
    pub origin_event_id: String,
    pub origin_timestamp: u64,
    pub argument_text: String,
}

/// Ghost mirror of `CommandInvocation` over character sequences.
#[verifier::ext_equal]
pub ghost struct InvocationView {
    pub room_id: Seq<char>,
    pub sender: Seq<char>,
    pub origin_event_id: Seq<char>,
    pub origin_timestamp: u64,
    pub argument_text: Seq<char>,
}

impl View for CommandInvocation {
    type V = InvocationView;

    open spec fn view(&self) -> InvocationView {
        InvocationView {
            room_id: self.room_id@,
            sender: self.sender@,
            origin_event_id: self.origin_event_id@,
            origin_timestamp: self.origin_timestamp,
            argument_text: self.argument_text@,
        }
    }
}

/// The invocation that routing a matching event produces.
pub open spec fn invocation_of(e: EventView, prefix: Seq<char>) -> InvocationView
    recommends
        route_matches(e.body, prefix),
{
    InvocationView {
        room_id: e.room_id,
        sender: e.sender,
        origin_event_id: e.id,
        origin_timestamp: e.origin_timestamp,
        argument_text: match e.body {
            BodyView::Text(b) => argument_of(b, prefix),
            _ => Seq::empty(),
        },
    }
}

fn is_space(c: char) -> (r: bool)
    ensures
        r == is_space_char(c),
{
    c == ' ' || c == '\t' || c == '\n' || c == '\r'
}

proof fn lemma_trim_start_skip(s: Seq<char>, k: int)
    requires
        0 <= k <= s.len(),
        forall|j: int| 0 <= j < k ==> is_space_char(s[j]),
    ensures
        trim_start_spec(s) == trim_start_spec(s.subrange(k, s.len() as int)),
    decreases k,
{
    if k == 0 {
        assert(s.subrange(0, s.len() as int) =~= s);
    } else {
        let t = s.drop_first();
        assert(t =~= s.subrange(1, s.len() as int));
        lemma_trim_start_skip(t, k - 1);
        assert(t.subrange(k - 1, t.len() as int) =~= s.subrange(k, s.len() as int));
    }
}

proof fn lemma_trim_end_skip(s: Seq<char>, k: int)
    requires
        0 <= k <= s.len(),
        forall|j: int| k <= j < s.len() ==> is_space_char(s[j]),
    ensures
        trim_end_spec(s) == trim_end_spec(s.subrange(0, k)),
    decreases s.len() - k,
{
    if k == s.len() {
        assert(s.subrange(0, s.len() as int) =~= s);
    } else {
        let t = s.drop_last();
        assert(t =~= s.subrange(0, s.len() - 1));
        lemma_trim_end_skip(t, k);
        assert(t.subrange(0, k) =~= s.subrange(0, k));
    }
}

/// Routes one event: yields an invocation exactly when the body is plain
/// text whose leading token equals `prefix`; all other events are passed
/// over silently, which is not an error. The argument is the remainder of
/// the body with surrounding whitespace removed.
pub fn route(event: &Event, prefix: &str) -> (r: Option<CommandInvocation>)
    ensures
        r is Some <==> route_matches(event@.body, prefix@),
        r matches Some(inv) ==> inv@ == invocation_of(event@, prefix@),
{
    let body: &str = match &event.body {
        MessageBody::Text(s) => s.as_str(),
        _ => {
            return None;
        },
    };
    let blen = body.unicode_len();
    let plen = prefix.unicode_len();
    if blen < plen {
        assert(!prefix_matches(body@, prefix@));
        return None;
    }
    let mut i: usize = 0;
    while i < plen
        invariant
            0 <= i <= plen <= blen,
            blen == body@.len(),
            plen == prefix@.len(),
            event@.body == BodyView::Text(body@),
            forall|j: int| 0 <= j < i ==> body@[j] == prefix@[j],
        decreases plen - i,
    {
        if body.get_char(i) != prefix.get_char(i) {
            assert(body@.subrange(0, plen as int) != prefix@) by {
                assert(body@.subrange(0, plen as int)[i as int] != prefix@[i as int]);
            }
            return None;
        }
        i = i + 1;
    }
    assert(body@.subrange(0, plen as int) =~= prefix@);
    if blen > plen && !is_space(body.get_char(plen)) {
        return None;
    }
    assert(prefix_matches(body@, prefix@));

    // The argument: skip whitespace after the prefix, then walk back over
    // trailing whitespace.
    let mut start: usize = plen;
    while start < blen && is_space(body.get_char(start))
        invariant
            plen <= start <= blen,
            blen == body@.len(),
            forall|j: int| plen <= j < start ==> is_space_char(body@[j]),
        decreases blen - start,
    {
        start = start + 1;
    }
    let mut end: usize = blen;
    while end > start && is_space(body.get_char(end - 1))
        invariant
            start <= end <= blen,
            blen == body@.len(),
            forall|j: int| end <= j < blen ==> is_space_char(body@[j]),
        decreases end,
    {
        end = end - 1;
    }
    let argument = body.substring_char(start, end);
    proof {
        let rest = body@.subrange(plen as int, blen as int);
        lemma_trim_start_skip(rest, start - plen);
        assert(rest.subrange(start - plen, rest.len() as int) =~= body@.subrange(
            start as int,
            blen as int,
        ));
        let after_start = body@.subrange(start as int, blen as int);
        if start < blen {
            assert(!is_space_char(after_start[0]));
            assert(trim_start_spec(after_start) == after_start);
        } else {
            assert(after_start.len() == 0);
            assert(trim_start_spec(after_start) == after_start);
        }
        lemma_trim_end_skip(after_start, end - start);
        assert(after_start.subrange(0, end - start) =~= body@.subrange(start as int, end as int));
        let arg_seq = body@.subrange(start as int, end as int);
        if end > start {
            assert(!is_space_char(arg_seq[arg_seq.len() - 1]));
            assert(trim_end_spec(arg_seq) == arg_seq);
        } else {
            assert(arg_seq.len() == 0);
            assert(trim_end_spec(arg_seq) == arg_seq);
        }
        assert(argument@ == argument_of(body@, prefix@));
    }
    let inv = CommandInvocation {
        room_id: event.room_id.clone(),
        sender: event.sender.clone(),
        origin_event_id: event.id.clone(),
        origin_timestamp: event.origin_timestamp,
        argument_text: String::from_str(argument),
    };
    proof {
        assert(inv@ =~~= invocation_of(event@, prefix@));
    }
    Some(inv)
}

} // verus!
