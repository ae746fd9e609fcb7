use vstd::prelude::*;

use crate::composer::OutgoingMessage;

verus! {

/// Everything one send attempt hands the transport: the destination room,
/// the message, and the per-attempt idempotency token the request must
/// carry.
pub struct SendRequest {
    pub room_id: String,
    pub message: OutgoingMessage,
    pub txn_id: String,
}

/// Relies on `uuid::Uuid::new_v4` and its `Display` rendering: a fresh
/// version-4 UUID in the hyphenated 8-4-4-4-12 form, which is always 36
/// characters. Nothing else is assumed of it — the value is random.
#[verifier::external_body]
fn fresh_txn_id() -> (r: String)
    ensures
        r@.len() == 36,
{
    uuid::Uuid::new_v4().to_string()
}

/// Wraps a composed reply for sending: the request carries the room and
/// message unchanged, plus a freshly drawn idempotency token, so a
/// transport-level retry of the same attempt cannot deliver the reply
/// twice.
pub fn prepare_send(room_id: String, message: OutgoingMessage) -> (r: SendRequest)
    ensures
        r.room_id == room_id,
        r.message == message,
        r.txn_id@.len() == 36,
{
    let txn_id = fresh_txn_id();
    SendRequest { room_id, message, txn_id }
}

} // verus!
