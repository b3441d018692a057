//! The calls into the Teltonika frame decoder, with what they return.

use vstd::prelude::*;

verus! {

/// A decoded AVL record; its fields hold floating-point coordinates, so the
/// session only carries records through to the telemetry sink.
#[verifier::external_type_specification]
#[verifier::external_body]
pub struct ExAVLData(teltonika_rs::protocol::AVLData);

/// An ASCII decimal digit.
pub open spec fn is_digit(b: u8) -> bool {
    48 <= b <= 57
}

/// The identifier handshake framing: the two bytes `0x00 0x0F` followed by
/// at least one ASCII digit.
pub open spec fn imei_parses(b: Seq<u8>) -> bool {
    b.len() >= 3 && b[0] == 0 && b[1] == 15 && is_digit(b[2])
}

/// The number of consecutive ASCII digits in `b` from index `start` on.
pub open spec fn digit_run_len(b: Seq<u8>, start: int) -> nat
    decreases b.len() - start,
{
    if 0 <= start < b.len() && is_digit(b[start]) {
        1 + digit_run_len(b, start + 1)
    } else {
        0
    }
}

/// The identifier that a handshake carries: the run of digits after the two
/// framing bytes, as characters.
pub open spec fn imei_digits(b: Seq<u8>) -> Seq<char> {
    Seq::new(digit_run_len(b, 2), |i: int| b[i + 2] as char)
}

/// Whether a Codec 8 data frame decodes; what it takes to decode spans the
/// whole record layout.
pub uninterp spec fn codec8_parses(b: Seq<u8>) -> bool;

/// Relies on teltonika_rs::parser::parse_teltonika_imei: it matches the tag
/// `[0, 15]`, then nom's `digit1`, the longest non-empty run of ASCII digits.
#[verifier::external_body]
pub(crate) fn parse_imei(data: &[u8]) -> (r: Option<String>)
    ensures
        r is Some <==> imei_parses(data@),
        r is Some ==> r->Some_0@ == imei_digits(data@),
{
    teltonika_rs::parser::parse_teltonika_imei(data).ok().map(|(_, imei)| imei.to_string())
}

/// Relies on teltonika_rs::parser::parse_teltonika_codec_8: on success it
/// has read the four-byte preamble, the four-byte length, the codec id and
/// the record count at index 9, and returns exactly that many records.
#[verifier::external_body]
pub(crate) fn decode_codec8(data: &[u8]) -> (r: Option<Vec<teltonika_rs::protocol::AVLData>>)
    ensures
        r is Some <==> codec8_parses(data@),
        r is Some ==> data@.len() >= 10 && r->Some_0@.len() == data@[9] as nat,
{
    teltonika_rs::parser::parse_teltonika_codec_8(data).ok().map(|(_, frame)| frame.avl_data)
}

} // verus!
