//! Properties of the session that relate several steps or hold of all inputs.

use vstd::prelude::*;
use crate::connection::SessionView;
use crate::decoder::{codec8_parses, imei_digits, imei_parses};
use crate::protocol::{MessageType, be_bytes, be_value, classify, imei_authorized, imei_message};
use crate::session::{data_step, identifier_step, step};

verus! {

/// A chunk of 15 to 25 bytes that decodes as an identifier is classified
/// as an identifier handshake; a chunk of any other length never is.
pub proof fn lemma_identifier_classification(b: Seq<u8>, partial_ack: Option<u8>)
    ensures
        15 <= b.len() <= 25 && imei_parses(b) ==> classify(b, partial_ack) == MessageType::Imei,
        !(15 <= b.len() <= 25) ==> classify(b, partial_ack) != MessageType::Imei,
{
}

/// An acknowledgment count split over two reads, the sentinel and then the
/// count byte, has the same effect as the two bytes in one read: no reply,
/// no forwarding, and the pending sentinel cleared. A count byte equal to
/// the sentinel is left out: alone it is read as a new sentinel.
pub proof fn lemma_split_ack_count(s: SessionView, n: u8)
    requires
        n != 0xfe,
    ensures
        ({
            let whole = step(s, seq![0xfeu8, n]);
            let first = step(s, seq![0xfeu8]);
            let second = step(first.state, seq![n]);
            &&& second.state == whole.state
            &&& whole.state.partial_ack is None
            &&& first.reply == Seq::<u8>::empty() && second.reply == Seq::<u8>::empty()
            &&& whole.reply == Seq::<u8>::empty()
            &&& first.forwarded == 0 && second.forwarded == 0 && whole.forwarded == 0
            &&& !first.close && !second.close && !whole.close
        }),
{
    assert(seq![0xfeu8, n].len() == 2);
    assert(seq![n].len() == 1 && seq![n][0] == n);
}

/// An accepted handshake replies exactly `0x01`, keeps the connection open
/// and sets an identifier, so that a decoded frame that follows is
/// acknowledged; a rejected one replies exactly `0x00` and ends the
/// connection.
pub proof fn lemma_handshake(s: SessionView, imei: Seq<char>, authorized: bool, n: nat)
    requires
        n <= u32::MAX,
    ensures
        ({
            let h = identifier_step(s, imei, authorized);
            &&& authorized ==> {
                &&& h.reply == seq![1u8]
                &&& !h.close
                &&& h.state.imei is Some
                &&& data_step(h.state, Some(n)).reply == be_bytes(n as u32)
                &&& data_step(h.state, Some(n)).forwarded == n
            }
            &&& !authorized ==> h.reply == seq![0u8] && h.close
        }),
{
}

/// A decoded batch of `n` records, once the identifier is set, is answered
/// by one reply of four bytes whose big-endian value is `n`, and all `n`
/// records are handed on. The reply is fixed before any record is forwarded.
pub proof fn lemma_batch_ack(s: SessionView, n: nat)
    requires
        s.imei is Some,
        n <= u32::MAX,
    ensures
        data_step(s, Some(n)).reply.len() == 4,
        be_value(data_step(s, Some(n)).reply) == n,
        data_step(s, Some(n)).forwarded == n,
        !data_step(s, Some(n)).close,
{
    let x = n as u32;
    assert(be_value(be_bytes(x)) == x) by (nonlinear_arith);
}

/// A data frame before the handshake is dropped without reply and without
/// ending the connection, and an identifier handshake after it is still
/// handled.
pub proof fn lemma_data_before_handshake(s: SessionView, b: Seq<u8>, h: Seq<u8>)
    requires
        s.imei is None,
        classify(b, s.partial_ack) == MessageType::Data,
        imei_message(h),
    ensures
        step(s, b).reply == Seq::<u8>::empty(),
        step(s, b).forwarded == 0,
        !step(s, b).close,
        step(s, b).state.imei is None,
        step(step(s, b).state, h) == identifier_step(
            step(s, b).state,
            imei_digits(h),
            imei_authorized(imei_digits(h)),
        ),
        step(step(s, b).state, h).reply == seq![1u8],
        step(step(s, b).state, h).state.imei == Some(imei_digits(h)),
{
}

/// A data frame that does not decode gets no reply and no acknowledgment,
/// forwards nothing, clears the pending sentinel and keeps the connection.
pub proof fn lemma_malformed_frame(s: SessionView, b: Seq<u8>)
    requires
        classify(b, s.partial_ack) == MessageType::Data,
        !codec8_parses(b),
    ensures
        step(s, b).reply == Seq::<u8>::empty(),
        step(s, b).forwarded == 0,
        step(s, b).state.partial_ack is None,
        step(s, b).state.imei == s.imei,
        !step(s, b).close,
{
}

} // verus!
