use vstd::prelude::*;

use vstd::string::StringExecFns;

use crate::router::{CommandInvocation, InvocationView};

verus! {

/// A typed back-reference from an outgoing message to the event that
/// triggered it. The target must be an event the sender has observed.
pub struct Relation {
    pub relation_type: String,
    pub target_event_id: String,
}

/// Ghost mirror of `Relation` over character sequences.
#[verifier::ext_equal]
pub ghost struct RelationView {
    pub relation_type: Seq<char>,
    pub target_event_id: Seq<char>,
}

impl View for Relation {
    type V = RelationView;

    open spec fn view(&self) -> RelationView {
        RelationView { relation_type: self.relation_type@, target_event_id: self.target_event_id@ }
    }
}

/// A reply, constructed once and then immutable: a plain body, an optional
/// rich (HTML) rendering of the same text, and an optional relation.
pub struct OutgoingMessage {
    pub plain_body: String,
    pub formatted_body: Option<String>,
    pub relation: Option<Relation>,
}

/// Ghost mirror of `OutgoingMessage` over character sequences.
#[verifier::ext_equal]
pub ghost struct MessageView {
    pub plain_body: Seq<char>,
    pub formatted_body: Option<Seq<char>>,
    pub relation: Option<RelationView>,
}

impl View for OutgoingMessage {
    type V = MessageView;

    open spec fn view(&self) -> MessageView {
        MessageView {
            plain_body: self.plain_body@,
            formatted_body: match self.formatted_body {
                Some(f) => Some(f@),
                None => None,
            },
            relation: match self.relation {
                Some(rel) => Some(rel@),
                None => None,
            },
        }
    }
}

/// The relation type that threads a pong reply to the ping that caused it.
pub open spec fn pong_relation_type() -> Seq<char> {
    "xyz.maubot.pong"@
}

/// The decimal digit for `d`.
pub open spec fn digit_char(d: int) -> char {
    if d == 0 {
        '0'
    } else if d == 1 {
        '1'
    } else if d == 2 {
        '2'
    } else if d == 3 {
        '3'
    } else if d == 4 {
        '4'
    } else if d == 5 {
        '5'
    } else if d == 6 {
        '6'
    } else if d == 7 {
        '7'
    } else if d == 8 {
        '8'
    } else {
        '9'
    }
}

/// The decimal digits of a non-negative number, most significant first,
/// with no leading zeros (a single `'0'` for zero).
pub open spec fn dec_digits(n: int) -> Seq<char>
    recommends
        n >= 0,
    decreases n,
{
    if n < 10 {
        seq![digit_char(n)]
    } else {
        dec_digits(n / 10).push(digit_char(n % 10))
    }
}

/// The decimal rendering of an integer, with a leading `'-'` if negative.
pub open spec fn dec_int(e: int) -> Seq<char> {
    if e < 0 {
        seq!['-'] + dec_digits(-e)
    } else {
        dec_digits(e)
    }
}

/// How long the event took to arrive, in milliseconds. Reported as-is:
/// clock skew between client and server can make it negative, and clamping
/// would hide the skew.
pub open spec fn elapsed_millis(now: u64, origin: u64) -> int {
    now - origin
}

/// The optional quoted-argument segment of the reply: absent for an empty
/// argument, otherwise the argument in double quotes with a trailing space.
pub open spec fn quoted_argument(arg: Seq<char>) -> Seq<char> {
    if arg.len() == 0 {
        Seq::empty()
    } else {
        "\""@ + arg + "\" "@
    }
}

/// The plain reply body.
pub open spec fn plain_body_view(sender: Seq<char>, arg: Seq<char>, elapsed: int) -> Seq<char> {
    sender + ": Pong! (ping "@ + quoted_argument(arg) + "took "@ + dec_int(elapsed)
        + " ms to arrive)"@
}

/// The rich reply body: the same text, with the sender linked to their
/// profile and the word "ping" linked to the originating event's permalink.
pub open spec fn formatted_body_view(
    sender: Seq<char>,
    room_id: Seq<char>,
    event_id: Seq<char>,
    arg: Seq<char>,
    elapsed: int,
) -> Seq<char> {
    "<a href='https://matrix.to/#/"@ + sender + "'>"@ + sender
        + "</a>: Pong! (<a href='https://matrix.to/#/"@ + room_id + "/"@ + event_id
        + "'>ping</a> "@ + quoted_argument(arg) + "took "@ + dec_int(elapsed) + " ms to arrive)"@
}

/// The message that composition yields: a function of the invocation and
/// the composition-time clock sample alone.
pub open spec fn compose_view(inv: InvocationView, now: u64) -> MessageView {
    MessageView {
        plain_body: plain_body_view(
            inv.sender,
            inv.argument_text,
            elapsed_millis(now, inv.origin_timestamp),
        ),
        formatted_body: Some(
            formatted_body_view(
                inv.sender,
                inv.room_id,
                inv.origin_event_id,
                inv.argument_text,
                elapsed_millis(now, inv.origin_timestamp),
            ),
        ),
        relation: Some(
            RelationView {
                relation_type: pong_relation_type(),
                target_event_id: inv.origin_event_id,
            },
        ),
    }
}

fn digit_str(d: u8) -> (r: &'static str)
    requires
        d < 10,
    ensures
        r@ == seq![digit_char(d as int)],
{
    proof {
        reveal_strlit("0");
        reveal_strlit("1");
        reveal_strlit("2");
        reveal_strlit("3");
        reveal_strlit("4");
        reveal_strlit("5");
        reveal_strlit("6");
        reveal_strlit("7");
        reveal_strlit("8");
        reveal_strlit("9");
    }
    match d {
        0 => "0",
        1 => "1",
        2 => "2",
        3 => "3",
        4 => "4",
        5 => "5",
        6 => "6",
        7 => "7",
        8 => "8",
        _ => "9",
    }
}

/// Appends the decimal digits of `n` to `out`.
fn append_dec_u(n: u128, out: &mut String)
    ensures
        final(out)@ == old(out)@ + dec_digits(n as int),
    decreases n,
{
    if n >= 10 {
        append_dec_u(n / 10, out);
    }
    let d: u8 = (n % 10) as u8;
    out.append(digit_str(d));
    proof {
        assert(final(out)@ =~= old(out)@ + dec_digits(n as int));
    }
}

/// Appends the decimal rendering of `e` (sign included) to `out`.
fn append_dec_i(e: i128, out: &mut String)
    requires
        e > i128::MIN,
    ensures
        final(out)@ == old(out)@ + dec_int(e as int),
{
    if e < 0 {
        out.append("-");
        let mag: u128 = (-e) as u128;
        append_dec_u(mag, out);
        proof {
            reveal_strlit("-");
            assert(final(out)@ =~= old(out)@ + dec_int(e as int));
        }
    } else {
        append_dec_u(e as u128, out);
    }
}

/// Appends the quoted-argument segment for `arg` to `out`.
fn append_quoted_argument(arg: &String, out: &mut String)
    ensures
        final(out)@ == old(out)@ + quoted_argument(arg@),
{
    if !arg.as_str().is_empty() {
        out.append("\"");
        out.append(arg.as_str());
        out.append("\" ");
        proof {
            assert(final(out)@ =~= old(out)@ + quoted_argument(arg@));
        }
    } else {
        proof {
            assert(final(out)@ =~= old(out)@ + quoted_argument(arg@));
        }
    }
}

/// Builds the reply for a recognized command. `now` must be sampled at
/// composition time, so that the reported latency reflects dispatch delay
/// rather than network send delay. Composition is pure: the result is a
/// function of the invocation and `now` alone, and the attached relation
/// always targets the originating event.
pub fn compose(inv: &CommandInvocation, now: u64) -> (r: OutgoingMessage)
    ensures
        r@ == compose_view(inv@, now),
{
    let elapsed: i128 = now as i128 - inv.origin_timestamp as i128;

    let mut plain = inv.sender.clone();
    plain.append(": Pong! (ping ");
    append_quoted_argument(&inv.argument_text, &mut plain);
    plain.append("took ");
    append_dec_i(elapsed, &mut plain);
    plain.append(" ms to arrive)");

    let mut html = String::new();
    html.append("<a href='https://matrix.to/#/");
    html.append(inv.sender.as_str());
    html.append("'>");
    html.append(inv.sender.as_str());
    html.append("</a>: Pong! (<a href='https://matrix.to/#/");
    html.append(inv.room_id.as_str());
    html.append("/");
    html.append(inv.origin_event_id.as_str());
    html.append("'>ping</a> ");
    append_quoted_argument(&inv.argument_text, &mut html);
    html.append("took ");
    append_dec_i(elapsed, &mut html);
    html.append(" ms to arrive)");

    let relation = Relation {
        relation_type: String::from_str("xyz.maubot.pong"),
        target_event_id: inv.origin_event_id.clone(),
    };
    let r = OutgoingMessage {
        plain_body: plain,
        formatted_body: Some(html),
        relation: Some(relation),
    };
    proof {
        assert(r.plain_body@ =~= plain_body_view(
            inv@.sender,
            inv@.argument_text,
            elapsed_millis(now, inv@.origin_timestamp),
        ));
        assert(r.formatted_body->0@ =~= formatted_body_view(
            inv@.sender,
            inv@.room_id,
            inv@.origin_event_id,
            inv@.argument_text,
            elapsed_millis(now, inv@.origin_timestamp),
        ));
        assert(r@ =~~= compose_view(inv@, now));
    }
    r
}

/// Composition is deterministic: two messages composed from the same
/// invocation and the same clock sample are identical.
pub proof fn lemma_compose_deterministic(
    m1: MessageView,
    m2: MessageView,
    inv: InvocationView,
    now: u64,
)
    requires
        m1 == compose_view(inv, now),
        m2 == compose_view(inv, now),
    ensures
        m1 == m2,
{
}

} // verus!
