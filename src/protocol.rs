//! Classification of incoming chunks and the encoding of outbound replies.

use vstd::prelude::*;
use crate::connection::ConnectionState;
use crate::decoder::{imei_parses, parse_imei};

verus! {

/// The byte that starts an acknowledgment-count message.
pub const ACK_SENTINEL: u8 = 0xfe;

/// The reply that accepts an identifier.
pub const IMEI_ACCEPTED: u8 = 0x01;

/// The reply that rejects an identifier.
pub const IMEI_REJECTED: u8 = 0x00;

/// What an incoming chunk is taken to be.
#[derive(Clone, Copy, Debug, PartialEq, Eq, Structural)]
pub enum MessageType {
    /// An identifier handshake.
    Imei,
    /// The acknowledgment-count sentinel, received alone.
    PartialAck,
    /// A complete acknowledgment-count value.
    AckCount(u8),
    /// Anything else: a telemetry data frame.
    Data,
}

/// A chunk of identifier size that the decoder reads as an identifier.
pub open spec fn imei_message(b: Seq<u8>) -> bool {
    15 <= b.len() <= 25 && imei_parses(b)
}

/// The classification rules, first match wins.
pub open spec fn classify(b: Seq<u8>, partial_ack: Option<u8>) -> MessageType {
    if b.len() == 1 && b[0] == ACK_SENTINEL {
        MessageType::PartialAck
    } else if b.len() == 1 && partial_ack is Some {
        MessageType::AckCount(b[0])
    } else if b.len() == 2 && b[0] == ACK_SENTINEL {
        MessageType::AckCount(b[1])
    } else if imei_message(b) {
        MessageType::Imei
    } else {
        MessageType::Data
    }
}

/// The authorization policy: every identifier is accepted.
pub open spec fn imei_authorized(imei: Seq<char>) -> bool {
    true
}

/// Whether `data` is an identifier handshake: of identifier size, and read
/// as an identifier by the decoder.
pub fn is_imei_message(data: &[u8]) -> (r: bool)
    ensures
        r == imei_message(data@),
{
    if data.len() < 15 || data.len() > 25 {
        return false;
    }
    match parse_imei(data) {
        Some(_) => true,
        None => false,
    }
}

/// Whether the server accepts data from the device with identifier `imei`.
pub fn is_imei_authorized(imei: &str) -> (r: bool)
    ensures
        r == imei_authorized(imei@),
{
    true
}

/// Classifies one received chunk against the session state.
pub fn identify_message_type(data: &[u8], state: &ConnectionState) -> (r: MessageType)
    ensures
        r == classify(data@, state@.partial_ack),
{
    if data.len() == 1 && data[0] == ACK_SENTINEL {
        return MessageType::PartialAck;
    }
    if data.len() == 1 && state.partial_ack.is_some() {
        return MessageType::AckCount(data[0]);
    }
    if data.len() == 2 && data[0] == ACK_SENTINEL {
        return MessageType::AckCount(data[1]);
    }
    if is_imei_message(data) {
        return MessageType::Imei;
    }
    MessageType::Data
}

/// The four big-endian bytes of `n`.
pub open spec fn be_bytes(n: u32) -> Seq<u8> {
    seq![
        (n / 0x100_0000) as u8,
        ((n / 0x1_0000) % 0x100) as u8,
        ((n / 0x100) % 0x100) as u8,
        (n % 0x100) as u8,
    ]
}

/// The value that four big-endian bytes stand for.
pub open spec fn be_value(b: Seq<u8>) -> nat {
    b[0] as nat * 0x100_0000 + b[1] as nat * 0x1_0000 + b[2] as nat * 0x100 + b[3] as nat
}

/// The one-byte reply to an identifier handshake.
pub fn handshake_reply(accepted: bool) -> (r: Vec<u8>)
    ensures
        r@ == seq![if accepted { IMEI_ACCEPTED } else { IMEI_REJECTED }],
{
    let mut r: Vec<u8> = Vec::new();
    r.push(if accepted { IMEI_ACCEPTED } else { IMEI_REJECTED });
    r
}

/// The acknowledgment of a data frame: its record count, big-endian.
pub fn count_ack(n: u32) -> (r: Vec<u8>)
    ensures
        r@ == be_bytes(n),
        be_value(r@) == n,
{
    let mut r: Vec<u8> = Vec::new();
    r.push((n / 0x100_0000) as u8);
    r.push(((n / 0x1_0000) % 0x100) as u8);
    r.push(((n / 0x100) % 0x100) as u8);
    r.push((n % 0x100) as u8);
    assert(r@ =~= be_bytes(n));
    r
}

} // verus!
