//! The IEX transport protocol (IEX-TP) decoder.
//!
//! A transport segment is a contiguous byte buffer: a fixed 40-byte header
//! followed by a payload of length-prefixed message blocks. This module holds
//! the shared field decoders (fixed-width trimmed text, fixed-point prices,
//! two timestamp resolutions) and the error taxonomy; [`segment`] decodes the
//! header and splits the payload, and [`tops`] decodes the message blocks of
//! the TOPS feed.

use vstd::prelude::*;

pub mod segment;
pub mod tops;

verus! {

use vstd::bytes::{spec_u32_from_le_bytes, spec_u64_from_le_bytes, u32_from_le_bytes,
    u64_from_le_bytes};
use vstd::slice::slice_index_get;
use vstd::utf8::{decode_utf8, valid_utf8};

/// How a decode can fail. Every failure is surfaced as one of these distinct,
/// inspectable outcomes; nothing is silently recovered.
#[derive(Clone, Copy, PartialEq, Eq, Structural, Debug)]
pub enum DecodeError {
    /// The buffer is shorter than a fixed-width field or a declared block
    /// length requires.
    Truncated,
    /// Bytes that must be text are not valid UTF-8.
    InvalidEncoding,
    /// The declared message count or payload length is inconsistent with the
    /// actual block boundaries.
    MalformedSegment,
    /// A message block's tag byte is not in the active feed's catalog.
    UnknownMessageType,
    /// The header's message protocol id is not supported by the catalog
    /// selected for decoding.
    ProtocolMismatch,
}

/// Number of nanoseconds in one second.
pub const NANOS_PER_SEC: u64 = 1_000_000_000;

/// The wire scale of fixed-point prices: the represented price is
/// `raw` / `PRICE_SCALE`.
pub const PRICE_SCALE: i64 = 10_000;

/// A fixed-point price as carried on the wire: a signed 64-bit integer scaled
/// by [`PRICE_SCALE`], so `raw == 990_500` represents the price 99.05.
#[derive(Clone, Copy, PartialEq, Eq, Structural, Debug)]
pub struct Price {
    pub raw: i64,
}

/// A nanosecond-resolution point in time, split into whole seconds since the
/// Unix epoch and the remaining nanoseconds.
#[derive(Clone, Copy, PartialEq, Eq, Structural, Debug)]
pub struct Timestamp {
    pub secs: u64,
    pub nanos: u32,
}

impl Timestamp {
    /// The remainder is a true sub-second part and the whole value fits the
    /// 64-bit wire encoding.
    pub open spec fn wf(self) -> bool {
        &&& self.nanos < NANOS_PER_SEC
        &&& self.secs * NANOS_PER_SEC + self.nanos <= u64::MAX
    }

    /// Total nanoseconds since the Unix epoch.
    pub open spec fn as_nanos(self) -> int {
        self.secs * NANOS_PER_SEC + self.nanos
    }

    /// The timestamp denoted by a raw nanosecond count.
    pub open spec fn spec_from_nanos(raw: u64) -> Timestamp {
        Timestamp { secs: raw / NANOS_PER_SEC, nanos: (raw % NANOS_PER_SEC) as u32 }
    }

    /// Split a raw nanosecond count into whole seconds and the remainder.
    pub fn from_nanos(raw: u64) -> (r: Timestamp)
        ensures
            r == Timestamp::spec_from_nanos(raw),
            r.wf(),
            r.as_nanos() == raw,
    {
        let secs = raw / NANOS_PER_SEC;
        let nanos = (raw % NANOS_PER_SEC) as u32;
        proof {
            vstd::arithmetic::div_mod::lemma_fundamental_div_mod(raw as int, NANOS_PER_SEC as int);
        }
        Timestamp { secs, nanos }
    }
}

/// The interface every record of the feed offers: decode one value from the
/// bytes that carry it.
pub trait Unmarshal: Sized {
    fn unmarshall(buf: &[u8]) -> Result<Self, DecodeError>;
}

/// `b` with every trailing space byte removed.
pub open spec fn trim_trailing_spaces(b: Seq<u8>) -> Seq<u8>
    decreases b.len(),
{
    if b.len() > 0 && b.last() == 0x20u8 {
        trim_trailing_spaces(b.drop_last())
    } else {
        b
    }
}

/// Relies on `core::str::from_utf8`: it returns `Ok` exactly when the bytes
/// are valid UTF-8, and then decodes them by the UTF-8 rules.
#[verifier::external_body]
fn bytes_to_str(buf: &[u8]) -> (r: Option<&str>)
    ensures
        r is Some <==> valid_utf8(buf@),
        r is Some ==> r.unwrap()@ == decode_utf8(buf@),
{
    core::str::from_utf8(buf).ok()
}

/// Decode a fixed-width text field: strip the trailing space padding, then
/// interpret the rest as UTF-8. Leading spaces are preserved.
pub fn decode_text(buf: &[u8]) -> (r: Result<String, DecodeError>)
    ensures
        r is Ok <==> valid_utf8(trim_trailing_spaces(buf@)),
        r is Ok ==> r.unwrap()@ == decode_utf8(trim_trailing_spaces(buf@)),
        r is Err ==> r == Err::<String, DecodeError>(DecodeError::InvalidEncoding),
{
    let mut end: usize = buf.len();
    proof {
        assert(buf@.take(end as int) =~= buf@);
    }
    while end > 0 && *slice_index_get(buf, end - 1) == 0x20u8
        invariant
            end <= buf@.len(),
            trim_trailing_spaces(buf@) == trim_trailing_spaces(buf@.take(end as int)),
        decreases end,
    {
        proof {
            assert(buf@.take(end as int).drop_last() =~= buf@.take(end - 1));
        }
        end = end - 1;
    }
    proof {
        if end == 0 {
            assert(buf@.take(0).len() == 0);
        }
        assert(trim_trailing_spaces(buf@.take(end as int)) == buf@.take(end as int));
    }
    let trimmed: &[u8] = &buf[0..end];
    match bytes_to_str(trimmed) {
        Some(s) => Ok(s.to_owned()),
        None => Err(DecodeError::InvalidEncoding),
    }
}

/// The signed 64-bit value whose two's-complement unsigned reading is `u`.
pub open spec fn spec_i64_of_u64(u: u64) -> int {
    if u < 0x8000_0000_0000_0000 {
        u as int
    } else {
        u - 0x1_0000_0000_0000_0000
    }
}

/// The unsigned 64-bit two's-complement reading of `x`.
pub open spec fn spec_u64_of_i64(x: i64) -> int {
    if x >= 0 {
        x as int
    } else {
        x + 0x1_0000_0000_0000_0000
    }
}

/// Read a signed little-endian 64-bit integer.
pub fn i64_from_le_bytes(buf: &[u8]) -> (r: i64)
    requires
        buf@.len() == 8,
    ensures
        r as int == spec_i64_of_u64(spec_u64_from_le_bytes(buf@)),
{
    let u = u64_from_le_bytes(buf);
    if u < 0x8000_0000_0000_0000 {
        u as i64
    } else {
        i64::MIN + ((u - 0x8000_0000_0000_0000) as i64)
    }
}

/// Decode a fixed-point price: a signed little-endian 64-bit integer scaled
/// by [`PRICE_SCALE`].
pub fn decode_price(buf: &[u8]) -> (r: Price)
    requires
        buf@.len() == 8,
    ensures
        r.raw as int == spec_i64_of_u64(spec_u64_from_le_bytes(buf@)),
{
    Price { raw: i64_from_le_bytes(buf) }
}

/// Decode a nanosecond timestamp: an unsigned little-endian 64-bit nanosecond
/// count since the Unix epoch, split into whole seconds and the remainder.
pub fn decode_timestamp(buf: &[u8]) -> (r: Timestamp)
    requires
        buf@.len() == 8,
    ensures
        r == Timestamp::spec_from_nanos(spec_u64_from_le_bytes(buf@)),
        r.wf(),
        r.as_nanos() == spec_u64_from_le_bytes(buf@),
{
    Timestamp::from_nanos(u64_from_le_bytes(buf))
}

/// Decode an event time: an unsigned little-endian 32-bit count of whole
/// seconds since the Unix epoch, with no sub-second component.
pub fn decode_event_time(buf: &[u8]) -> (r: u32)
    requires
        buf@.len() == 4,
    ensures
        r == spec_u32_from_le_bytes(buf@),
{
    u32_from_le_bytes(buf)
}

} // verus!
