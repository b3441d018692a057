use teltonika_server::connection::ConnectionState;
use teltonika_server::protocol::{count_ack, handshake_reply};
use teltonika_server::session::{on_data_frame, on_identifier, process_chunk};
use teltonika_server::{identify_message_type, is_imei_authorized, is_imei_message, MessageType};

const IMEI: &str = "356307042441013";

fn handshake() -> Vec<u8> {
    let mut v = vec![0u8, 15];
    v.extend_from_slice(IMEI.as_bytes());
    v
}

fn record() -> Vec<u8> {
    let mut r = vec![0u8, 0, 1, 0x6b, 0x40, 0xd8, 0xea, 0x30];
    r.push(1);
    r.extend_from_slice(&[0u8; 15]);
    r.extend_from_slice(&[0u8, 0, 0, 0, 0, 0]);
    r
}

fn frame(n: u8) -> Vec<u8> {
    let mut body = vec![8u8, n];
    for _ in 0..n {
        body.extend(record());
    }
    body.push(n);
    let mut v = vec![0u8, 0, 0, 0];
    v.extend_from_slice(&(body.len() as u32).to_be_bytes());
    v.extend(body);
    v.extend_from_slice(&[0u8, 0, 0, 0]);
    v
}

fn authenticated() -> ConnectionState {
    let mut st = ConnectionState::new();
    let out = process_chunk(&mut st, &handshake());
    assert_eq!(out.reply, vec![1u8]);
    st
}

#[test]
fn new_state_is_empty() {
    let st = ConnectionState::new();
    assert!(st.imei.is_none());
    assert!(st.partial_ack.is_none());
}

#[test]
fn classify_ack_forms() {
    let mut st = ConnectionState::new();
    assert_eq!(identify_message_type(&[0xfe], &st), MessageType::PartialAck);
    assert_eq!(identify_message_type(&[0x05], &st), MessageType::Data);
    assert_eq!(identify_message_type(&[0xfe, 0x05], &st), MessageType::AckCount(5));
    st.partial_ack = Some(0xfe);
    assert_eq!(identify_message_type(&[0x05], &st), MessageType::AckCount(5));
    assert_eq!(identify_message_type(&[0xfe], &st), MessageType::PartialAck);
}

#[test]
fn classify_identifier_by_length() {
    let st = ConnectionState::new();
    assert_eq!(identify_message_type(&handshake(), &st), MessageType::Imei);
    let short = &handshake()[..14];
    assert_eq!(identify_message_type(short, &st), MessageType::Data);
    let mut long = handshake();
    long.extend_from_slice(b"123456789");
    assert_eq!(long.len(), 26);
    assert_eq!(identify_message_type(&long, &st), MessageType::Data);
    long.pop();
    assert_eq!(identify_message_type(&long, &st), MessageType::Imei);
}

#[test]
fn identifier_needs_framing() {
    assert!(is_imei_message(&handshake()));
    let mut bad = handshake();
    bad[1] = 14;
    assert!(!is_imei_message(&bad));
    let mut letters = handshake();
    letters[2] = b'x';
    assert!(!is_imei_message(&letters));
}

#[test]
fn every_identifier_is_authorized() {
    assert!(is_imei_authorized(IMEI));
    assert!(is_imei_authorized(""));
}

#[test]
fn handshake_stores_digits_and_accepts() {
    let mut st = ConnectionState::new();
    let mut msg = handshake();
    msg.extend_from_slice(b"ab");
    let out = process_chunk(&mut st, &msg);
    assert_eq!(out.reply, vec![0x01]);
    assert!(!out.close);
    assert!(out.records.is_empty());
    assert_eq!(st.imei.as_deref(), Some(IMEI));
}

#[test]
fn rejected_identifier_closes() {
    let mut st = ConnectionState::new();
    let out = on_identifier(&mut st, IMEI.to_string(), false);
    assert_eq!(out.reply, vec![0x00]);
    assert!(out.close);
    assert!(st.imei.is_none());
}

#[test]
fn first_identifier_stays() {
    let mut st = authenticated();
    let out = on_identifier(&mut st, "111111111111111".to_string(), true);
    assert_eq!(out.reply, vec![0x01]);
    assert_eq!(st.imei.as_deref(), Some(IMEI));
}

#[test]
fn split_ack_equals_whole_ack() {
    let mut a = authenticated();
    let o1 = process_chunk(&mut a, &[0xfe]);
    assert!(o1.reply.is_empty());
    assert_eq!(a.partial_ack, Some(0xfe));
    let o2 = process_chunk(&mut a, &[0x05]);
    assert!(o2.reply.is_empty());
    assert_eq!(a.partial_ack, None);

    let mut b = authenticated();
    let o = process_chunk(&mut b, &[0xfe, 0x05]);
    assert!(o.reply.is_empty());
    assert!(!o.close && !o1.close && !o2.close);
    assert_eq!(a.partial_ack, b.partial_ack);
    assert_eq!(a.imei, b.imei);
}

#[test]
fn decoded_batch_is_acknowledged() {
    let mut st = authenticated();
    let out = process_chunk(&mut st, &frame(2));
    assert_eq!(out.records.len(), 2);
    assert_eq!(out.reply, vec![0, 0, 0, 2]);
    assert!(!out.close);
}

#[test]
fn empty_batch_is_acknowledged_with_zero() {
    let mut st = authenticated();
    let out = process_chunk(&mut st, &frame(0));
    assert!(out.records.is_empty());
    assert_eq!(out.reply, vec![0, 0, 0, 0]);
}

#[test]
fn batch_ack_ignores_forwarding() {
    let mut st = authenticated();
    st.partial_ack = Some(0xfe);
    let mut other = authenticated();
    let records = process_chunk(&mut other, &frame(3)).records;
    let out = on_data_frame(&mut st, Some(records));
    assert_eq!(out.records.len(), 3);
    assert_eq!(out.reply, vec![0, 0, 0, 3]);
    assert_eq!(st.partial_ack, None);
}

#[test]
fn data_before_handshake_is_dropped() {
    let mut st = ConnectionState::new();
    let out = process_chunk(&mut st, &frame(1));
    assert!(out.reply.is_empty());
    assert!(out.records.is_empty());
    assert!(!out.close);
    assert!(st.imei.is_none());
    let out = process_chunk(&mut st, &handshake());
    assert_eq!(out.reply, vec![0x01]);
    assert_eq!(st.imei.as_deref(), Some(IMEI));
}

#[test]
fn malformed_frame_gets_no_reply() {
    let mut st = authenticated();
    st.partial_ack = Some(0xfe);
    let mut bad = frame(1);
    bad.truncate(20);
    let out = process_chunk(&mut st, &bad[..]);
    assert!(out.reply.is_empty());
    assert!(out.records.is_empty());
    assert!(!out.close);
    assert_eq!(st.partial_ack, None);
    assert_eq!(st.imei.as_deref(), Some(IMEI));
    let out = process_chunk(&mut st, &[1, 2, 3, 4, 5]);
    assert!(out.reply.is_empty());
}

#[test]
fn count_ack_is_big_endian() {
    assert_eq!(count_ack(0x01020304), vec![1, 2, 3, 4]);
    assert_eq!(count_ack(7), vec![0, 0, 0, 7]);
    assert_eq!(count_ack(u32::MAX), vec![0xff, 0xff, 0xff, 0xff]);
}

#[test]
fn handshake_reply_bytes() {
    assert_eq!(handshake_reply(true), vec![0x01]);
    assert_eq!(handshake_reply(false), vec![0x00]);
}
