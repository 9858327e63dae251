//! Tests of the transport decoder: field decoders, segment header, envelope
//! splitting, and the TOPS message catalog.

use chrono::TimeZone;
use chrono::Utc;
use iex::iextp::segment::{decode_header, encode_header, split_messages, SEGMENT_HEADER_SIZE};
use iex::iextp::tops::{decode_message, decode_segment, supports_protocol, TopsMessage};
use iex::iextp::{
    decode_event_time, decode_price, decode_text, decode_timestamp, DecodeError, Timestamp,
};

#[test]
fn test_parse_string() {
    // ZIEXT
    let symbol_literal = &[0x5a, 0x49, 0x45, 0x58, 0x54, 0x20, 0x20, 0x20];

    match decode_text(symbol_literal) {
        Ok(val) => assert_eq!("ZIEXT", val),
        Err(x) => panic!("{:?}", x),
    };
}

#[test]
fn test_parse_price() {
    // 99.05
    let price_literal = &[0x24, 0x1d, 0x0f, 0x00, 0x00, 0x00, 0x00, 0x00];
    let price = decode_price(price_literal);
    assert_eq!(990_500, price.raw);
    assert_eq!(99.05, price.raw as f64 / 10_000.0);
}

#[test]
fn test_parse_timestamp_secs() {
    // 2017-04-17 17:00:00
    let time_literal = &[0x00, 0xa0, 0x99, 0x97, 0xe9, 0x3d, 0xb6, 0x14];
    let date_expected = Utc.with_ymd_and_hms(2017, 4, 17, 17, 0, 0).unwrap();
    let decoded = decode_timestamp(time_literal);
    assert_eq!(date_expected.timestamp(), decoded.secs as i64);
    assert_eq!(date_expected.timestamp_subsec_nanos(), decoded.nanos);
}

#[test]
fn test_parse_timestamp_nsecs() {
    // 2016-08-23 19:30:32.572715948
    let time_literal = &[0xac, 0x63, 0xc0, 0x20, 0x96, 0x86, 0x6d, 0x14];
    let date_expected = Utc
        .with_ymd_and_hms(2016, 8, 23, 19, 30, 32)
        .unwrap()
        .with_timezone(&Utc)
        + chrono::Duration::nanoseconds(572_715_948);
    let decoded = decode_timestamp(time_literal);
    assert_eq!(date_expected.timestamp(), decoded.secs as i64);
    assert_eq!(date_expected.timestamp_subsec_nanos(), decoded.nanos);
    assert_eq!(572_715_948, decoded.nanos);
}

#[test]
fn test_parse_event_time() {
    // 2017-04-17 17:00:00, whole seconds only.
    let time_literal = &[0x90, 0xf4, 0xf4, 0x58];
    let date_expected = Utc.with_ymd_and_hms(2017, 4, 17, 17, 0, 0).unwrap();
    assert_eq!(date_expected.timestamp(), decode_event_time(time_literal) as i64);
}

#[test]
fn text_keeps_leading_spaces() {
    let bytes = &[0x20, 0x20, 0x41, 0x42, 0x20, 0x20];
    assert_eq!("  AB", decode_text(bytes).unwrap());
}

#[test]
fn text_rejects_invalid_encoding() {
    // 0xff can start no UTF-8 sequence.
    let bytes = &[0x41, 0xff, 0x42];
    assert_eq!(Err(DecodeError::InvalidEncoding), decode_text(bytes));
}

#[test]
fn text_of_only_spaces_is_empty() {
    let bytes = &[0x20, 0x20, 0x20];
    assert_eq!("", decode_text(bytes).unwrap());
}

#[test]
fn price_can_be_negative() {
    let bytes = &[0xff, 0xff, 0xff, 0xff, 0xff, 0xff, 0xff, 0xff];
    assert_eq!(-1, decode_price(bytes).raw);
}

const HEADER: [u8; 40] = [
    0x01, 0x00, 0x03, 0x80, 0x01, 0x00, 0x00, 0x00, 0x78, 0x56, 0x34, 0x12, 0x0f, 0x00, 0x02,
    0x00, 0xd6, 0xff, 0xff, 0xff, 0xff, 0xff, 0xff, 0xff, 0x64, 0x00, 0x00, 0x00, 0x00, 0x00,
    0x00, 0x00, 0xac, 0x63, 0xc0, 0x20, 0x96, 0x86, 0x6d, 0x14,
];

#[test]
fn header_fields_decode_exactly() {
    let h = decode_header(&HEADER).unwrap();
    assert_eq!(1, h.version);
    assert_eq!(0, h.reserved);
    assert_eq!(0x8003, h.message_protocol_id);
    assert_eq!(1, h.channel_id);
    assert_eq!(0x12345678, h.session_id);
    assert_eq!(15, h.payload_length);
    assert_eq!(2, h.message_count);
    assert_eq!(-42, h.stream_offset);
    assert_eq!(100, h.first_message_sequence_number);
    assert_eq!(
        Timestamp {
            secs: 1_471_980_632,
            nanos: 572_715_948
        },
        h.send_time
    );
}

#[test]
fn header_round_trips_to_its_bytes() {
    let h = decode_header(&HEADER).unwrap();
    assert_eq!(HEADER.to_vec(), encode_header(&h));
}

#[test]
fn short_header_is_truncated() {
    assert_eq!(SEGMENT_HEADER_SIZE, 40);
    assert_eq!(Err(DecodeError::Truncated), decode_header(&HEADER[..39]));
    assert_eq!(Err(DecodeError::Truncated), decode_header(&[]));
}

#[test]
fn split_zero_count_needs_empty_payload() {
    assert_eq!(Vec::<Vec<u8>>::new(), split_messages(&[], 0).unwrap());
    assert_eq!(
        Err(DecodeError::MalformedSegment),
        split_messages(&[0x00], 0)
    );
}

#[test]
fn split_yields_blocks_in_order() {
    let payload = [
        0x03, 0x00, 0x10, 0x11, 0x12, // first block: three bytes
        0x00, 0x00, // second block: empty
        0x01, 0x00, 0x42, // third block: one byte
    ];
    let blocks = split_messages(&payload, 3).unwrap();
    assert_eq!(3, blocks.len());
    assert_eq!(vec![0x10, 0x11, 0x12], blocks[0]);
    assert_eq!(Vec::<u8>::new(), blocks[1]);
    assert_eq!(vec![0x42], blocks[2]);
}

#[test]
fn split_rejects_exhausted_payload() {
    // The prefix declares three bytes; only two follow.
    let payload = [0x03, 0x00, 0x10, 0x11];
    assert_eq!(Err(DecodeError::MalformedSegment), split_messages(&payload, 1));
    // A declared second block is missing entirely.
    let payload = [0x01, 0x00, 0x10];
    assert_eq!(Err(DecodeError::MalformedSegment), split_messages(&payload, 2));
}

#[test]
fn split_rejects_leftover_bytes() {
    let payload = [0x01, 0x00, 0x10, 0x99];
    assert_eq!(Err(DecodeError::MalformedSegment), split_messages(&payload, 1));
}

// A System Event block: end of system hours at 2016-08-23 19:30:32.572715948.
const SYSTEM_EVENT_BLOCK: [u8; 10] = [
    0x53, 0x45, 0xac, 0x63, 0xc0, 0x20, 0x96, 0x86, 0x6d, 0x14,
];

#[test]
fn system_event_decodes() {
    match decode_message(&SYSTEM_EVENT_BLOCK).unwrap() {
        TopsMessage::SystemEvent(e) => {
            assert_eq!(iex::iextp::tops::END_OF_SYSTEM_HOURS, e.system_event);
            assert_eq!(1_471_980_632, e.timestamp.secs);
            assert_eq!(572_715_948, e.timestamp.nanos);
        }
        other => panic!("{:?}", other),
    }
}

#[test]
fn quote_update_decodes() {
    let mut block = vec![0x51, 0x00];
    block.extend_from_slice(&[0x00, 0xa0, 0x99, 0x97, 0xe9, 0x3d, 0xb6, 0x14]); // timestamp
    block.extend_from_slice(b"ZIEXT   "); // symbol
    block.extend_from_slice(&[0xe4, 0x25, 0x00, 0x00]); // bid size 9700
    block.extend_from_slice(&[0x24, 0x1d, 0x0f, 0x00, 0x00, 0x00, 0x00, 0x00]); // bid 99.05
    block.extend_from_slice(&[0xec, 0x1d, 0x0f, 0x00, 0x00, 0x00, 0x00, 0x00]); // ask 99.07
    block.extend_from_slice(&[0xe8, 0x03, 0x00, 0x00]); // ask size 1000
    match decode_message(&block).unwrap() {
        TopsMessage::QuoteUpdate(q) => {
            assert_eq!(0, q.flags);
            assert_eq!(1_492_448_400, q.timestamp.secs);
            assert_eq!("ZIEXT", q.symbol);
            assert_eq!(9700, q.bid_size);
            assert_eq!(990_500, q.bid_price.raw);
            assert_eq!(990_700, q.ask_price.raw);
            assert_eq!(1000, q.ask_size);
        }
        other => panic!("{:?}", other),
    }
}

#[test]
fn trade_report_decodes() {
    let mut block = vec![0x54, 0x00];
    block.extend_from_slice(&[0x00, 0xa0, 0x99, 0x97, 0xe9, 0x3d, 0xb6, 0x14]);
    block.extend_from_slice(b"ZIEXT   ");
    block.extend_from_slice(&[0x64, 0x00, 0x00, 0x00]); // size 100
    block.extend_from_slice(&[0x24, 0x1d, 0x0f, 0x00, 0x00, 0x00, 0x00, 0x00]); // 99.05
    block.extend_from_slice(&[0x2a, 0x00, 0x00, 0x00, 0x00, 0x00, 0x00, 0x00]); // trade id 42
    match decode_message(&block).unwrap() {
        TopsMessage::TradeReport(t) => {
            assert_eq!("ZIEXT", t.symbol);
            assert_eq!(100, t.size);
            assert_eq!(990_500, t.price.raw);
            assert_eq!(42, t.trade_id);
        }
        other => panic!("{:?}", other),
    }
}

#[test]
fn unknown_tag_is_rejected() {
    assert_eq!(
        Err(DecodeError::UnknownMessageType),
        decode_message(&[0x99, 0x00, 0x00])
    );
}

#[test]
fn short_block_is_truncated() {
    assert_eq!(Err(DecodeError::Truncated), decode_message(&[]));
    // A System Event needs ten bytes.
    assert_eq!(
        Err(DecodeError::Truncated),
        decode_message(&SYSTEM_EVENT_BLOCK[..9])
    );
}

#[test]
fn bad_symbol_is_invalid_encoding() {
    let mut block = vec![0x4f, 0x00]; // operational halt
    block.extend_from_slice(&[0x00, 0xa0, 0x99, 0x97, 0xe9, 0x3d, 0xb6, 0x14]);
    block.extend_from_slice(&[0xff, 0xfe, 0x20, 0x20, 0x20, 0x20, 0x20, 0x20]);
    assert_eq!(Err(DecodeError::InvalidEncoding), decode_message(&block));
}

fn segment_with_unknown_block() -> Vec<u8> {
    let mut buf = HEADER.to_vec();
    buf.extend_from_slice(&[0x0a, 0x00]);
    buf.extend_from_slice(&SYSTEM_EVENT_BLOCK);
    buf.extend_from_slice(&[0x01, 0x00, 0x99]);
    buf
}

#[test]
fn segment_decodes_and_unknown_block_is_scoped() {
    let buf = segment_with_unknown_block();
    let (header, messages) = decode_segment(&buf).unwrap();
    assert_eq!(0x8003, header.message_protocol_id);
    assert_eq!(2, messages.len());
    // The sibling of the unknown block still decoded.
    assert!(matches!(messages[0], Ok(TopsMessage::SystemEvent(_))));
    assert_eq!(Err(DecodeError::UnknownMessageType), messages[1]);
}

#[test]
fn segment_rejects_unsupported_protocol() {
    assert!(supports_protocol(0x8002));
    assert!(supports_protocol(0x8003));
    assert!(!supports_protocol(0x8004));
    let mut buf = segment_with_unknown_block();
    buf[2] = 0x04; // message protocol id becomes 0x8004
    assert_eq!(Err(DecodeError::ProtocolMismatch), decode_segment(&buf));
}

#[test]
fn segment_rejects_wrong_payload_length() {
    let mut buf = segment_with_unknown_block();
    buf.push(0x00); // one byte more than the header declares
    assert_eq!(Err(DecodeError::MalformedSegment), decode_segment(&buf));
}

#[test]
fn segment_rejects_wrong_message_count() {
    let mut buf = segment_with_unknown_block();
    buf[14] = 0x03; // declares three blocks; the payload holds two
    assert_eq!(Err(DecodeError::MalformedSegment), decode_segment(&buf));
}

#[test]
fn short_segment_is_truncated() {
    assert_eq!(Err(DecodeError::Truncated), decode_segment(&HEADER[..20]));
}
