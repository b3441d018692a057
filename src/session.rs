//! One step of a device session: what a received chunk does to the state,
//! what is written back, which records go on to the telemetry sink, and
//! whether the connection ends.

use vstd::prelude::*;
use crate::connection::{ConnectionState, SessionView, well_formed};
use crate::decoder::{codec8_parses, decode_codec8, imei_digits, parse_imei};
use crate::protocol::{
    ACK_SENTINEL, MessageType, be_bytes, classify, count_ack, handshake_reply,
    identify_message_type, imei_authorized, is_imei_authorized,
};
use teltonika_rs::protocol::AVLData;

verus! {

/// What the session does after one chunk. The caller first forwards each of
/// `records` to the telemetry sink, whatever each forwarding call returns,
/// then writes `reply` (if it is not empty), then ends the connection if
/// `close` is set.
pub struct Outcome {
    pub reply: Vec<u8>,
    pub records: Vec<AVLData>,
    pub close: bool,
}

/// The mathematical effect of one step.
pub struct StepView {
    pub state: SessionView,
    pub reply: Seq<u8>,
    pub forwarded: nat,
    pub close: bool,
}

/// An identifier handshake carrying `imei`, under the authorization
/// decision `authorized`.
pub open spec fn identifier_step(s: SessionView, imei: Seq<char>, authorized: bool) -> StepView {
    StepView {
        state: SessionView {
            imei: if authorized && s.imei is None { Some(imei) } else { s.imei },
            partial_ack: s.partial_ack,
        },
        reply: seq![if authorized { 1u8 } else { 0u8 }],
        forwarded: 0,
        close: !authorized,
    }
}

/// A data frame whose decoding gave `decoded` records (`None`: it did not
/// decode). Frames before the handshake are dropped.
pub open spec fn data_step(s: SessionView, decoded: Option<nat>) -> StepView {
    let accepted = s.imei is Some && decoded is Some;
    StepView {
        state: SessionView { imei: s.imei, partial_ack: None },
        reply: if accepted { be_bytes(decoded->Some_0 as u32) } else { seq![] },
        forwarded: if accepted { decoded->Some_0 } else { 0 },
        close: false,
    }
}

/// The record count that a data frame decodes to, if it decodes.
pub open spec fn frame_count(b: Seq<u8>) -> Option<nat> {
    if codec8_parses(b) { Some(b[9] as nat) } else { None }
}

/// The effect of receiving chunk `b` in state `s`.
pub open spec fn step(s: SessionView, b: Seq<u8>) -> StepView {
    match classify(b, s.partial_ack) {
        MessageType::Imei => identifier_step(s, imei_digits(b), imei_authorized(imei_digits(b))),
        MessageType::PartialAck => StepView {
            state: SessionView { imei: s.imei, partial_ack: Some(ACK_SENTINEL) },
            reply: seq![],
            forwarded: 0,
            close: false,
        },
        MessageType::AckCount(_) => StepView {
            state: SessionView { imei: s.imei, partial_ack: None },
            reply: seq![],
            forwarded: 0,
            close: false,
        },
        MessageType::Data => data_step(s, frame_count(b)),
    }
}

/// Handles an identifier handshake for `imei`: on acceptance the identifier
/// is kept (the first one stays) and `0x01` is replied; on rejection `0x00`
/// is replied and the connection ends.
pub fn on_identifier(state: &mut ConnectionState, imei: String, authorized: bool) -> (out: Outcome)
    ensures
        final(state)@ == identifier_step(old(state)@, imei@, authorized).state,
        out.reply@ == identifier_step(old(state)@, imei@, authorized).reply,
        out.records@.len() == 0,
        out.close == !authorized,
{
    if authorized && state.imei.is_none() {
        state.imei = Some(imei);
    }
    Outcome { reply: handshake_reply(authorized), records: Vec::new(), close: !authorized }
}

/// Handles a data frame whose decoding gave `decoded`. With an identifier
/// set and a decoded batch, every record is handed on and the reply is the
/// batch size as four big-endian bytes; otherwise nothing is replied.
pub fn on_data_frame(state: &mut ConnectionState, decoded: Option<Vec<AVLData>>) -> (out: Outcome)
    requires
        decoded is Some ==> decoded->Some_0@.len() <= u32::MAX,
    ensures
        ({
            let count = match decoded {
                Some(v) => Some(v@.len()),
                None => None,
            };
            &&& final(state)@ == data_step(old(state)@, count).state
            &&& out.reply@ == data_step(old(state)@, count).reply
            &&& out.records@.len() == data_step(old(state)@, count).forwarded
            &&& (old(state)@.imei is Some && decoded is Some) ==> out.records@ == decoded->Some_0@
        }),
        !out.close,
{
    state.partial_ack = None;
    if state.imei.is_none() {
        return Outcome { reply: Vec::new(), records: Vec::new(), close: false };
    }
    match decoded {
        Some(records) => {
            let reply = count_ack(records.len() as u32);
            Outcome { reply, records, close: false }
        },
        None => Outcome { reply: Vec::new(), records: Vec::new(), close: false },
    }
}

/// Handles one received chunk.
pub fn process_chunk(state: &mut ConnectionState, data: &[u8]) -> (out: Outcome)
    ensures
        final(state)@ == step(old(state)@, data@).state,
        out.reply@ == step(old(state)@, data@).reply,
        out.records@.len() == step(old(state)@, data@).forwarded,
        out.close == step(old(state)@, data@).close,
        well_formed(old(state)@) ==> well_formed(final(state)@),
{
    match identify_message_type(data, state) {
        MessageType::Imei => {
            match parse_imei(data) {
                Some(imei) => {
                    let authorized = is_imei_authorized(imei.as_str());
                    on_identifier(state, imei, authorized)
                },
                None => Outcome { reply: Vec::new(), records: Vec::new(), close: false },
            }
        },
        MessageType::PartialAck => {
            state.partial_ack = Some(ACK_SENTINEL);
            Outcome { reply: Vec::new(), records: Vec::new(), close: false }
        },
        MessageType::AckCount(_) => {
            state.partial_ack = None;
            Outcome { reply: Vec::new(), records: Vec::new(), close: false }
        },
        MessageType::Data => {
            if state.imei.is_none() {
                on_data_frame(state, None)
            } else {
                let decoded = decode_codec8(data);
                on_data_frame(state, decoded)
            }
        },
    }
}

} // verus!
