//! The TOPS feed: the message catalog layered on top of the transport
//! protocol.
//!
//! Every message block's first byte is a type tag from a closed, byte-exact
//! catalog; the remaining bytes follow a fixed, type-specific layout built
//! from the shared field decoders. An unrecognized tag is a decode error,
//! never silently ignored, and is scoped to its own block: sibling blocks of
//! the same segment still decode.

use vstd::prelude::*;

verus! {

use vstd::bytes::{spec_u32_from_le_bytes, spec_u64_from_le_bytes, u32_from_le_bytes};
use vstd::utf8::{decode_utf8, valid_utf8};
use crate::iextp::{DecodeError, Price, Timestamp, Unmarshal, decode_event_time, decode_price,
    decode_text, decode_timestamp, spec_i64_of_u64, trim_trailing_spaces};
use crate::iextp::segment::{SegmentHeader, SEGMENT_HEADER_SIZE, decode_header, spec_decode_header,
    spec_split_messages, split_messages};

/// The logical stream the TOPS feed is published on.
pub const CHANNEL_ID: u32 = 1;

/// Message protocol id of TOPS 1.5.
pub const V_1_5_MESSAGE_PROTOCOL_ID: u16 = 0x8002;

/// Message protocol id of TOPS 1.6.
pub const V_1_6_MESSAGE_PROTOCOL_ID: u16 = 0x8003;

/// Human-readable feed name, for diagnostics.
pub fn feed_name() -> (r: &'static str)
    ensures
        r@ == "TOPS"@,
{
    "TOPS"
}

/// Whether a segment header's message protocol id selects this catalog.
pub open spec fn spec_supports_protocol(id: u16) -> bool {
    id == V_1_5_MESSAGE_PROTOCOL_ID || id == V_1_6_MESSAGE_PROTOCOL_ID
}

/// Whether a segment header's message protocol id selects this catalog.
pub fn supports_protocol(id: u16) -> (r: bool)
    ensures
        r == spec_supports_protocol(id),
{
    id == V_1_5_MESSAGE_PROTOCOL_ID || id == V_1_6_MESSAGE_PROTOCOL_ID
}

// Administrative message tags.
/// Tag byte of a System Event message.
pub const SYSTEM_EVENT: u8 = 0x53;

/// Tag byte of a Security Directory message.
pub const SECURITY_DIRECTORY: u8 = 0x44;

/// Tag byte of a Trading Status message.
pub const TRADING_STATUS: u8 = 0x48;

/// Tag byte of an Operational Halt Status message.
pub const OPERATIONAL_HALT_STATUS: u8 = 0x4f;

/// Tag byte of a Short Sale Price Test Status message.
pub const SHORT_SALE_PRICE_TEST_STATUS: u8 = 0x50;

// Trading message tags.
/// Tag byte of a Quote Update message.
pub const QUOTE_UPDATE: u8 = 0x51;

/// Tag byte of a Trade Report message.
pub const TRADE_REPORT: u8 = 0x54;

/// Tag byte of a Trade Break message.
pub const TRADE_BREAK: u8 = 0x42;

/// Tag byte of an Official Price message.
pub const OFFICIAL_PRICE: u8 = 0x58;

// Auction message tags.
/// Tag byte of an Auction Information message.
pub const AUCTION_INFORMATION: u8 = 0x41;

// System Event codes: the one-byte event carried by a System Event message.
/// First message in any trading session.
pub const START_OF_MESSAGES: u8 = 0x4f;

/// The exchange is open and accepting orders.
pub const START_OF_SYSTEM_HOURS: u8 = 0x53;

/// All order kinds are available for execution.
pub const START_OF_REGULAR_MARKET_HOURS: u8 = 0x52;

/// Day, market and pegged orders are no longer accepted.
pub const END_OF_REGULAR_MARKET_HOURS: u8 = 0x4d;

/// The exchange is closed to new orders for this session.
pub const END_OF_SYSTEM_HOURS: u8 = 0x45;

/// Last message sent in any trading session.
pub const END_OF_MESSAGES: u8 = 0x43;

/// A market-wide session state change.
#[derive(Clone, Copy, PartialEq, Eq, Structural, Debug)]
pub struct SystemEventMessage {
    /// One of the System Event codes.
    pub system_event: u8,
    pub timestamp: Timestamp,
}

/// Per-security reference data announced at the start of the day.
#[derive(Clone, PartialEq, Eq, Debug)]
pub struct SecurityDirectoryMessage {
    pub flags: u8,
    pub timestamp: Timestamp,
    pub symbol: String,
    pub round_lot_size: u32,
    pub adjusted_poc_price: Price,
    pub luld_tier: u8,
}

/// The trading state of one security.
#[derive(Clone, PartialEq, Eq, Debug)]
pub struct TradingStatusMessage {
    pub trading_status: u8,
    pub timestamp: Timestamp,
    pub symbol: String,
    /// Four characters of reason text, trailing padding stripped.
    pub reason: String,
}

/// An operational halt of one security.
#[derive(Clone, PartialEq, Eq, Debug)]
pub struct OperationalHaltStatusMessage {
    pub operational_halt_status: u8,
    pub timestamp: Timestamp,
    pub symbol: String,
}

/// The short sale price test state of one security.
#[derive(Clone, PartialEq, Eq, Debug)]
pub struct ShortSalePriceTestStatusMessage {
    pub short_sale_price_test_status: u8,
    pub timestamp: Timestamp,
    pub symbol: String,
    pub detail: u8,
}

/// The exchange's best bid and offer for one security.
#[derive(Clone, PartialEq, Eq, Debug)]
pub struct QuoteUpdateMessage {
    pub flags: u8,
    pub timestamp: Timestamp,
    pub symbol: String,
    pub bid_size: u32,
    pub bid_price: Price,
    pub ask_price: Price,
    pub ask_size: u32,
}

/// One execution, or the break of one: Trade Report and Trade Break share
/// this layout, distinguished by their tag.
#[derive(Clone, PartialEq, Eq, Debug)]
pub struct TradeReportMessage {
    pub sale_condition_flags: u8,
    pub timestamp: Timestamp,
    pub symbol: String,
    pub size: u32,
    pub price: Price,
    pub trade_id: i64,
}

/// An official opening or closing price of one security.
#[derive(Clone, PartialEq, Eq, Debug)]
pub struct OfficialPriceMessage {
    pub price_type: u8,
    pub timestamp: Timestamp,
    pub symbol: String,
    pub official_price: Price,
}

/// The state of an auction in one security.
#[derive(Clone, PartialEq, Eq, Debug)]
pub struct AuctionInformationMessage {
    pub auction_type: u8,
    pub timestamp: Timestamp,
    pub symbol: String,
    pub paired_shares: u32,
    pub reference_price: Price,
    pub indicative_clearing_price: Price,
    pub imbalance_shares: u32,
    pub imbalance_side: u8,
    pub extension_number: u8,
    /// Scheduled auction time, in whole seconds since the epoch.
    pub scheduled_auction_time: u32,
    pub auction_book_clearing_price: Price,
    pub collar_reference_price: Price,
    pub lower_auction_collar: Price,
    pub upper_auction_collar: Price,
}

/// One decoded message of the TOPS catalog: a closed set of variants, one per
/// type tag.
#[derive(Clone, PartialEq, Eq, Debug)]
pub enum TopsMessage {
    SystemEvent(SystemEventMessage),
    SecurityDirectory(SecurityDirectoryMessage),
    TradingStatus(TradingStatusMessage),
    OperationalHaltStatus(OperationalHaltStatusMessage),
    ShortSalePriceTestStatus(ShortSalePriceTestStatusMessage),
    QuoteUpdate(QuoteUpdateMessage),
    TradeReport(TradeReportMessage),
    TradeBreak(TradeReportMessage),
    OfficialPrice(OfficialPriceMessage),
    AuctionInformation(AuctionInformationMessage),
}

/// Whether a tag byte belongs to this catalog.
pub open spec fn is_known_tag(tag: u8) -> bool {
    ||| tag == SYSTEM_EVENT
    ||| tag == SECURITY_DIRECTORY
    ||| tag == TRADING_STATUS
    ||| tag == OPERATIONAL_HALT_STATUS
    ||| tag == SHORT_SALE_PRICE_TEST_STATUS
    ||| tag == QUOTE_UPDATE
    ||| tag == TRADE_REPORT
    ||| tag == TRADE_BREAK
    ||| tag == OFFICIAL_PRICE
    ||| tag == AUCTION_INFORMATION
}

/// The fixed layout width of the message with the given tag.
pub open spec fn spec_message_length(tag: u8) -> nat
    recommends
        is_known_tag(tag),
{
    if tag == SYSTEM_EVENT {
        10
    } else if tag == SECURITY_DIRECTORY {
        31
    } else if tag == TRADING_STATUS {
        22
    } else if tag == OPERATIONAL_HALT_STATUS {
        18
    } else if tag == SHORT_SALE_PRICE_TEST_STATUS {
        19
    } else if tag == QUOTE_UPDATE {
        42
    } else if tag == TRADE_REPORT {
        38
    } else if tag == TRADE_BREAK {
        38
    } else if tag == OFFICIAL_PRICE {
        26
    } else if tag == AUCTION_INFORMATION {
        80
    } else {
        0
    }
}

/// The symbol field every non-administrative message carries at bytes 10..18,
/// with its trailing space padding stripped.
pub open spec fn spec_symbol_field(b: Seq<u8>) -> Seq<u8>
    recommends
        b.len() >= 18,
{
    trim_trailing_spaces(b.subrange(10, 18))
}

/// The reason field of a Trading Status message, padding stripped.
pub open spec fn spec_reason_field(b: Seq<u8>) -> Seq<u8>
    recommends
        b.len() >= 22,
{
    trim_trailing_spaces(b.subrange(18, 22))
}

/// Whether every text field of the block decodes as UTF-8.
pub open spec fn spec_texts_ok(b: Seq<u8>) -> bool
    recommends
        b.len() > 0,
        is_known_tag(b[0]),
        b.len() >= spec_message_length(b[0]),
{
    if b.len() == 0 || b[0] == SYSTEM_EVENT {
        true
    } else if b[0] == TRADING_STATUS {
        valid_utf8(spec_symbol_field(b)) && valid_utf8(spec_reason_field(b))
    } else {
        valid_utf8(spec_symbol_field(b))
    }
}

/// The nanosecond timestamp every message carries at bytes 2..10.
pub open spec fn spec_msg_timestamp(b: Seq<u8>) -> Timestamp
    recommends
        b.len() >= 10,
{
    Timestamp::spec_from_nanos(spec_u64_from_le_bytes(b.subrange(2, 10)))
}

/// The signed fixed-point price carried at bytes `off .. off + 8`.
pub open spec fn spec_price_at(b: Seq<u8>, off: int) -> int
    recommends
        0 <= off,
        off + 8 <= b.len(),
{
    spec_i64_of_u64(spec_u64_from_le_bytes(b.subrange(off, off + 8)))
}

/// The unsigned 32-bit count carried at bytes `off .. off + 4`.
pub open spec fn spec_u32_at(b: Seq<u8>, off: int) -> u32
    recommends
        0 <= off,
        off + 4 <= b.len(),
{
    spec_u32_from_le_bytes(b.subrange(off, off + 4))
}

/// Whether `m` is exactly the message that block `b` carries: the variant
/// selected by the tag byte, every field read at its fixed offset.
pub open spec fn spec_message_matches(b: Seq<u8>, m: TopsMessage) -> bool
    recommends
        b.len() > 0,
        is_known_tag(b[0]),
        b.len() >= spec_message_length(b[0]),
{
    match m {
        TopsMessage::SystemEvent(e) => {
            &&& b[0] == SYSTEM_EVENT
            &&& e.system_event == b[1]
            &&& e.timestamp == spec_msg_timestamp(b)
        },
        TopsMessage::SecurityDirectory(d) => {
            &&& b[0] == SECURITY_DIRECTORY
            &&& d.flags == b[1]
            &&& d.timestamp == spec_msg_timestamp(b)
            &&& d.symbol@ == decode_utf8(spec_symbol_field(b))
            &&& d.round_lot_size == spec_u32_at(b, 18)
            &&& d.adjusted_poc_price.raw as int == spec_price_at(b, 22)
            &&& d.luld_tier == b[30]
        },
        TopsMessage::TradingStatus(t) => {
            &&& b[0] == TRADING_STATUS
            &&& t.trading_status == b[1]
            &&& t.timestamp == spec_msg_timestamp(b)
            &&& t.symbol@ == decode_utf8(spec_symbol_field(b))
            &&& t.reason@ == decode_utf8(spec_reason_field(b))
        },
        TopsMessage::OperationalHaltStatus(o) => {
            &&& b[0] == OPERATIONAL_HALT_STATUS
            &&& o.operational_halt_status == b[1]
            &&& o.timestamp == spec_msg_timestamp(b)
            &&& o.symbol@ == decode_utf8(spec_symbol_field(b))
        },
        TopsMessage::ShortSalePriceTestStatus(s) => {
            &&& b[0] == SHORT_SALE_PRICE_TEST_STATUS
            &&& s.short_sale_price_test_status == b[1]
            &&& s.timestamp == spec_msg_timestamp(b)
            &&& s.symbol@ == decode_utf8(spec_symbol_field(b))
            &&& s.detail == b[18]
        },
        TopsMessage::QuoteUpdate(q) => {
            &&& b[0] == QUOTE_UPDATE
            &&& q.flags == b[1]
            &&& q.timestamp == spec_msg_timestamp(b)
            &&& q.symbol@ == decode_utf8(spec_symbol_field(b))
            &&& q.bid_size == spec_u32_at(b, 18)
            &&& q.bid_price.raw as int == spec_price_at(b, 22)
            &&& q.ask_price.raw as int == spec_price_at(b, 30)
            &&& q.ask_size == spec_u32_at(b, 38)
        },
        TopsMessage::TradeReport(t) => {
            &&& b[0] == TRADE_REPORT
            &&& spec_trade_fields_match(b, t)
        },
        TopsMessage::TradeBreak(t) => {
            &&& b[0] == TRADE_BREAK
            &&& spec_trade_fields_match(b, t)
        },
        TopsMessage::OfficialPrice(o) => {
            &&& b[0] == OFFICIAL_PRICE
            &&& o.price_type == b[1]
            &&& o.timestamp == spec_msg_timestamp(b)
            &&& o.symbol@ == decode_utf8(spec_symbol_field(b))
            &&& o.official_price.raw as int == spec_price_at(b, 18)
        },
        TopsMessage::AuctionInformation(a) => {
            &&& b[0] == AUCTION_INFORMATION
            &&& a.auction_type == b[1]
            &&& a.timestamp == spec_msg_timestamp(b)
            &&& a.symbol@ == decode_utf8(spec_symbol_field(b))
            &&& a.paired_shares == spec_u32_at(b, 18)
            &&& a.reference_price.raw as int == spec_price_at(b, 22)
            &&& a.indicative_clearing_price.raw as int == spec_price_at(b, 30)
            &&& a.imbalance_shares == spec_u32_at(b, 38)
            &&& a.imbalance_side == b[42]
            &&& a.extension_number == b[43]
            &&& a.scheduled_auction_time == spec_u32_at(b, 44)
            &&& a.auction_book_clearing_price.raw as int == spec_price_at(b, 48)
            &&& a.collar_reference_price.raw as int == spec_price_at(b, 56)
            &&& a.lower_auction_collar.raw as int == spec_price_at(b, 64)
            &&& a.upper_auction_collar.raw as int == spec_price_at(b, 72)
        },
    }
}

/// The fields Trade Report and Trade Break share.
pub open spec fn spec_trade_fields_match(b: Seq<u8>, t: TradeReportMessage) -> bool
    recommends
        b.len() >= 38,
{
    &&& t.sale_condition_flags == b[1]
    &&& t.timestamp == spec_msg_timestamp(b)
    &&& t.symbol@ == decode_utf8(spec_symbol_field(b))
    &&& t.size == spec_u32_at(b, 18)
    &&& t.price.raw as int == spec_price_at(b, 22)
    &&& t.trade_id as int == spec_price_at(b, 30)
}

/// Whether decoding the block is owed to succeed: a known tag, enough bytes
/// for that tag's layout, and text fields that decode.
pub open spec fn spec_message_ok(b: Seq<u8>) -> bool {
    &&& b.len() > 0
    &&& is_known_tag(b[0])
    &&& b.len() >= spec_message_length(b[0])
    &&& spec_texts_ok(b)
}

/// The error a failing block yields.
pub open spec fn spec_message_error(b: Seq<u8>) -> DecodeError
    recommends
        !spec_message_ok(b),
{
    if b.len() == 0 {
        DecodeError::Truncated
    } else if !is_known_tag(b[0]) {
        DecodeError::UnknownMessageType
    } else if b.len() < spec_message_length(b[0]) {
        DecodeError::Truncated
    } else {
        DecodeError::InvalidEncoding
    }
}

/// Decode the symbol field at bytes 10..18.
fn decode_symbol(block: &[u8]) -> (r: Result<String, DecodeError>)
    requires
        block@.len() >= 18,
    ensures
        r is Ok <==> valid_utf8(spec_symbol_field(block@)),
        r is Ok ==> r->Ok_0@ == decode_utf8(spec_symbol_field(block@)),
        r is Err ==> r == Err::<String, DecodeError>(DecodeError::InvalidEncoding),
{
    decode_text(&block[10..18])
}

/// Decode one message block of the TOPS catalog. The first byte selects the
/// variant; the remaining bytes are read at that variant's fixed offsets.
/// Fails with `UnknownMessageType` when the tag is not in the catalog, with
/// `Truncated` when the block is shorter than the variant's layout, and with
/// `InvalidEncoding` when a text field does not decode. Decoding never
/// mutates its input: the same block decodes to the same message every time.
#[verifier::rlimit(100)]
#[verifier::spinoff_prover]
pub fn decode_message(block: &[u8]) -> (r: Result<TopsMessage, DecodeError>)
    ensures
        r is Ok <==> spec_message_ok(block@),
        r is Ok ==> spec_message_matches(block@, r->Ok_0),
        r is Err ==> r->Err_0 == spec_message_error(block@),
{
    if block.len() == 0 {
        return Err(DecodeError::Truncated);
    }
    let tag = block[0];
    if tag == SYSTEM_EVENT {
        if block.len() < 10 {
            return Err(DecodeError::Truncated);
        }
        Ok(TopsMessage::SystemEvent(SystemEventMessage {
            system_event: block[1],
            timestamp: decode_timestamp(&block[2..10]),
        }))
    } else if tag == SECURITY_DIRECTORY {
        if block.len() < 31 {
            return Err(DecodeError::Truncated);
        }
        let symbol = match decode_symbol(block) {
            Ok(s) => s,
            Err(e) => { return Err(e) },
        };
        Ok(TopsMessage::SecurityDirectory(SecurityDirectoryMessage {
            flags: block[1],
            timestamp: decode_timestamp(&block[2..10]),
            symbol,
            round_lot_size: u32_from_le_bytes(&block[18..22]),
            adjusted_poc_price: decode_price(&block[22..30]),
            luld_tier: block[30],
        }))
    } else if tag == TRADING_STATUS {
        if block.len() < 22 {
            return Err(DecodeError::Truncated);
        }
        let symbol = match decode_symbol(block) {
            Ok(s) => s,
            Err(e) => { return Err(e) },
        };
        let reason = match decode_text(&block[18..22]) {
            Ok(s) => s,
            Err(e) => { return Err(e) },
        };
        Ok(TopsMessage::TradingStatus(TradingStatusMessage {
            trading_status: block[1],
            timestamp: decode_timestamp(&block[2..10]),
            symbol,
            reason,
        }))
    } else if tag == OPERATIONAL_HALT_STATUS {
        if block.len() < 18 {
            return Err(DecodeError::Truncated);
        }
        let symbol = match decode_symbol(block) {
            Ok(s) => s,
            Err(e) => { return Err(e) },
        };
        Ok(TopsMessage::OperationalHaltStatus(OperationalHaltStatusMessage {
            operational_halt_status: block[1],
            timestamp: decode_timestamp(&block[2..10]),
            symbol,
        }))
    } else if tag == SHORT_SALE_PRICE_TEST_STATUS {
        if block.len() < 19 {
            return Err(DecodeError::Truncated);
        }
        let symbol = match decode_symbol(block) {
            Ok(s) => s,
            Err(e) => { return Err(e) },
        };
        Ok(TopsMessage::ShortSalePriceTestStatus(ShortSalePriceTestStatusMessage {
            short_sale_price_test_status: block[1],
            timestamp: decode_timestamp(&block[2..10]),
            symbol,
            detail: block[18],
        }))
    } else if tag == QUOTE_UPDATE {
        if block.len() < 42 {
            return Err(DecodeError::Truncated);
        }
        let symbol = match decode_symbol(block) {
            Ok(s) => s,
            Err(e) => { return Err(e) },
        };
        Ok(TopsMessage::QuoteUpdate(QuoteUpdateMessage {
            flags: block[1],
            timestamp: decode_timestamp(&block[2..10]),
            symbol,
            bid_size: u32_from_le_bytes(&block[18..22]),
            bid_price: decode_price(&block[22..30]),
            ask_price: decode_price(&block[30..38]),
            ask_size: u32_from_le_bytes(&block[38..42]),
        }))
    } else if tag == TRADE_REPORT {
        if block.len() < 38 {
            return Err(DecodeError::Truncated);
        }
        match decode_trade_fields(block) {
            Ok(t) => Ok(TopsMessage::TradeReport(t)),
            Err(e) => Err(e),
        }
    } else if tag == TRADE_BREAK {
        if block.len() < 38 {
            return Err(DecodeError::Truncated);
        }
        match decode_trade_fields(block) {
            Ok(t) => Ok(TopsMessage::TradeBreak(t)),
            Err(e) => Err(e),
        }
    } else if tag == OFFICIAL_PRICE {
        if block.len() < 26 {
            return Err(DecodeError::Truncated);
        }
        let symbol = match decode_symbol(block) {
            Ok(s) => s,
            Err(e) => { return Err(e) },
        };
        Ok(TopsMessage::OfficialPrice(OfficialPriceMessage {
            price_type: block[1],
            timestamp: decode_timestamp(&block[2..10]),
            symbol,
            official_price: decode_price(&block[18..26]),
        }))
    } else if tag == AUCTION_INFORMATION {
        if block.len() < 80 {
            return Err(DecodeError::Truncated);
        }
        let symbol = match decode_symbol(block) {
            Ok(s) => s,
            Err(e) => { return Err(e) },
        };
        Ok(TopsMessage::AuctionInformation(AuctionInformationMessage {
            auction_type: block[1],
            timestamp: decode_timestamp(&block[2..10]),
            symbol,
            paired_shares: u32_from_le_bytes(&block[18..22]),
            reference_price: decode_price(&block[22..30]),
            indicative_clearing_price: decode_price(&block[30..38]),
            imbalance_shares: u32_from_le_bytes(&block[38..42]),
            imbalance_side: block[42],
            extension_number: block[43],
            scheduled_auction_time: decode_event_time(&block[44..48]),
            auction_book_clearing_price: decode_price(&block[48..56]),
            collar_reference_price: decode_price(&block[56..64]),
            lower_auction_collar: decode_price(&block[64..72]),
            upper_auction_collar: decode_price(&block[72..80]),
        }))
    } else {
        Err(DecodeError::UnknownMessageType)
    }
}

/// Decode the fields Trade Report and Trade Break share.
fn decode_trade_fields(block: &[u8]) -> (r: Result<TradeReportMessage, DecodeError>)
    requires
        block@.len() >= 38,
    ensures
        r is Ok <==> valid_utf8(spec_symbol_field(block@)),
        r is Ok ==> spec_trade_fields_match(block@, r->Ok_0),
        r is Err ==> r == Err::<TradeReportMessage, DecodeError>(DecodeError::InvalidEncoding),
{
    let symbol = match decode_symbol(block) {
        Ok(s) => s,
        Err(e) => { return Err(e) },
    };
    Ok(TradeReportMessage {
        sale_condition_flags: block[1],
        timestamp: decode_timestamp(&block[2..10]),
        symbol,
        size: u32_from_le_bytes(&block[18..22]),
        price: decode_price(&block[22..30]),
        trade_id: crate::iextp::i64_from_le_bytes(&block[30..38]),
    })
}

/// What decoding block `b` must yield: the exact message on a block that is
/// owed success, and the exact error otherwise.
pub open spec fn spec_message_result_matches(b: Seq<u8>, r: Result<TopsMessage, DecodeError>) -> bool {
    &&& r is Ok <==> spec_message_ok(b)
    &&& (r is Ok ==> spec_message_matches(b, r->Ok_0))
    &&& (r is Err ==> r->Err_0 == spec_message_error(b))
}

/// Decode one whole transport segment against this catalog: header, envelope,
/// then every message block. Header- and envelope-level failures (`Truncated`,
/// `ProtocolMismatch`, `MalformedSegment`) abort the segment, since block
/// boundaries cannot be trusted afterwards; a failure inside one block is
/// scoped to that block's entry, and every sibling block still decodes.
pub fn decode_segment(buf: &[u8]) -> (r: Result<
    (SegmentHeader, Vec<Result<TopsMessage, DecodeError>>),
    DecodeError,
>)
    ensures
        buf@.len() < SEGMENT_HEADER_SIZE ==> r == Err::<
            (SegmentHeader, Vec<Result<TopsMessage, DecodeError>>),
            DecodeError,
        >(DecodeError::Truncated),
        buf@.len() >= SEGMENT_HEADER_SIZE ==> ({
            let h = spec_decode_header(buf@);
            let payload = buf@.skip(SEGMENT_HEADER_SIZE as int);
            if !spec_supports_protocol(h.message_protocol_id) {
                r == Err::<
                    (SegmentHeader, Vec<Result<TopsMessage, DecodeError>>),
                    DecodeError,
                >(DecodeError::ProtocolMismatch)
            } else if payload.len() != h.payload_length {
                r == Err::<
                    (SegmentHeader, Vec<Result<TopsMessage, DecodeError>>),
                    DecodeError,
                >(DecodeError::MalformedSegment)
            } else {
                match spec_split_messages(payload, h.message_count as nat) {
                    Some(blocks) => {
                        &&& r is Ok
                        &&& r->Ok_0.0 == h
                        &&& r->Ok_0.1@.len() == blocks.len()
                        &&& forall|j: int|
                            0 <= j < blocks.len() ==> spec_message_result_matches(
                                blocks[j],
                                #[trigger] r->Ok_0.1@[j],
                            )
                    },
                    None => r == Err::<
                        (SegmentHeader, Vec<Result<TopsMessage, DecodeError>>),
                        DecodeError,
                    >(DecodeError::MalformedSegment),
                }
            }
        }),
{
    if buf.len() < SEGMENT_HEADER_SIZE {
        return Err(DecodeError::Truncated);
    }
    let header = match decode_header(buf) {
        Ok(h) => h,
        Err(e) => { return Err(e) },
    };
    if !supports_protocol(header.message_protocol_id) {
        return Err(DecodeError::ProtocolMismatch);
    }
    let payload: &[u8] = &buf[SEGMENT_HEADER_SIZE..buf.len()];
    proof {
        assert(payload@ =~= buf@.skip(SEGMENT_HEADER_SIZE as int));
    }
    if payload.len() != header.payload_length as usize {
        return Err(DecodeError::MalformedSegment);
    }
    let blocks = match split_messages(payload, header.message_count) {
        Ok(blocks) => blocks,
        Err(e) => { return Err(e) },
    };
    let ghost spec_blocks = spec_split_messages(
        payload@,
        header.message_count as nat,
    )->Some_0;
    let mut messages: Vec<Result<TopsMessage, DecodeError>> = Vec::new();
    let mut j: usize = 0;
    while j < blocks.len()
        invariant
            j <= blocks.len(),
            messages@.len() == j,
            blocks.deep_view() == spec_blocks,
            forall|k: int|
                0 <= k < j ==> spec_message_result_matches(spec_blocks[k], #[trigger] messages@[k]),
        decreases blocks@.len() - j,
    {
        let block: &Vec<u8> = &blocks[j];
        proof {
            assert(block.deep_view() =~= block@);
            assert(blocks.deep_view()[j as int] == block.deep_view());
        }
        messages.push(decode_message(block.as_slice()));
        j = j + 1;
    }
    Ok((header, messages))
}

impl Unmarshal for TopsMessage {
    /// Decode one message block of this catalog.
    fn unmarshall(buf: &[u8]) -> (r: Result<Self, DecodeError>)
        ensures
            r is Ok <==> spec_message_ok(buf@),
            r is Ok ==> spec_message_matches(buf@, r->Ok_0),
            r is Err ==> r->Err_0 == spec_message_error(buf@),
    {
        decode_message(buf)
    }
}

} // verus!
