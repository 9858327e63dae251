//! The transport layer: the fixed 40-byte segment header and the payload of
//! length-prefixed message blocks.

use vstd::prelude::*;

verus! {

use vstd::bytes::{spec_u16_from_le_bytes, spec_u16_to_le_bytes, spec_u32_from_le_bytes,
    spec_u32_to_le_bytes, spec_u64_from_le_bytes, spec_u64_to_le_bytes,
    lemma_auto_spec_u16_to_from_le_bytes, lemma_auto_spec_u32_to_from_le_bytes,
    lemma_auto_spec_u64_to_from_le_bytes, u16_from_le_bytes, u16_to_le_bytes, u32_from_le_bytes,
    u32_to_le_bytes, u64_to_le_bytes};
use vstd::slice::slice_to_vec;
use crate::iextp::{DecodeError, Timestamp, Unmarshal, NANOS_PER_SEC, decode_timestamp,
    i64_from_le_bytes, spec_i64_of_u64, spec_u64_of_i64};

/// The width of the segment header that precedes every payload.
pub const SEGMENT_HEADER_SIZE: usize = 40;

/// The fixed transport header preceding every segment's payload.
///
/// `payload_length` counts the payload bytes only, excluding this header;
/// `message_count` is the number of message blocks declared for the payload.
/// Both are validated against the actual payload by the envelope decoder, not
/// here: header decoding stays a pure structural parse.
#[derive(Clone, Copy, PartialEq, Eq, Structural, Debug)]
pub struct SegmentHeader {
    /// Version of the transport protocol.
    pub version: u8,
    /// Reserved byte, carried through untouched.
    pub reserved: u8,
    /// Identifies which feed's message catalog applies to the payload.
    pub message_protocol_id: u16,
    /// Logical stream id; sources sharing a channel id carry duplicates.
    pub channel_id: u32,
    /// Scopes sequence numbers to one producer's stream.
    pub session_id: u32,
    /// Number of payload bytes, the header itself excluded.
    pub payload_length: u16,
    /// Number of message blocks in the payload.
    pub message_count: u16,
    /// Byte offset of this payload within the logical stream.
    pub stream_offset: i64,
    /// Sequence number of the first message; later messages in the same
    /// segment are numbered sequentially after it.
    pub first_message_sequence_number: i64,
    /// The time the segment was sent, by the sender's clock.
    pub send_time: Timestamp,
}

impl SegmentHeader {
    /// The send time carries a faithful nanosecond reading.
    pub open spec fn wf(self) -> bool {
        self.send_time.wf()
    }
}

/// The header denoted by the first 40 bytes of `b`.
pub open spec fn spec_decode_header(b: Seq<u8>) -> SegmentHeader
    recommends
        b.len() >= SEGMENT_HEADER_SIZE,
{
    SegmentHeader {
        version: b[0],
        reserved: b[1],
        message_protocol_id: spec_u16_from_le_bytes(b.subrange(2, 4)),
        channel_id: spec_u32_from_le_bytes(b.subrange(4, 8)),
        session_id: spec_u32_from_le_bytes(b.subrange(8, 12)),
        payload_length: spec_u16_from_le_bytes(b.subrange(12, 14)),
        message_count: spec_u16_from_le_bytes(b.subrange(14, 16)),
        stream_offset: spec_i64_of_u64(spec_u64_from_le_bytes(b.subrange(16, 24))) as i64,
        first_message_sequence_number: spec_i64_of_u64(
            spec_u64_from_le_bytes(b.subrange(24, 32)),
        ) as i64,
        send_time: Timestamp::spec_from_nanos(spec_u64_from_le_bytes(b.subrange(32, 40))),
    }
}

/// The 40 bytes that carry `h`.
pub open spec fn spec_encode_header(h: SegmentHeader) -> Seq<u8> {
    seq![h.version, h.reserved] + spec_u16_to_le_bytes(h.message_protocol_id)
        + spec_u32_to_le_bytes(h.channel_id) + spec_u32_to_le_bytes(h.session_id)
        + spec_u16_to_le_bytes(h.payload_length) + spec_u16_to_le_bytes(h.message_count)
        + spec_u64_to_le_bytes(spec_u64_of_i64(h.stream_offset) as u64) + spec_u64_to_le_bytes(
        spec_u64_of_i64(h.first_message_sequence_number) as u64,
    ) + spec_u64_to_le_bytes(h.send_time.as_nanos() as u64)
}

/// Decode the segment header from the front of a received buffer. A buffer
/// shorter than the header's 40 bytes is rejected as `Truncated`.
pub fn decode_header(buf: &[u8]) -> (r: Result<SegmentHeader, DecodeError>)
    ensures
        buf@.len() >= SEGMENT_HEADER_SIZE ==> r == Ok::<SegmentHeader, DecodeError>(
            spec_decode_header(buf@),
        ),
        buf@.len() < SEGMENT_HEADER_SIZE ==> r == Err::<SegmentHeader, DecodeError>(
            DecodeError::Truncated,
        ),
        r is Ok ==> r->Ok_0.wf(),
{
    if buf.len() < SEGMENT_HEADER_SIZE {
        return Err(DecodeError::Truncated);
    }
    let header = SegmentHeader {
        version: buf[0],
        reserved: buf[1],
        message_protocol_id: u16_from_le_bytes(&buf[2..4]),
        channel_id: u32_from_le_bytes(&buf[4..8]),
        session_id: u32_from_le_bytes(&buf[8..12]),
        payload_length: u16_from_le_bytes(&buf[12..14]),
        message_count: u16_from_le_bytes(&buf[14..16]),
        stream_offset: i64_from_le_bytes(&buf[16..24]),
        first_message_sequence_number: i64_from_le_bytes(&buf[24..32]),
        send_time: decode_timestamp(&buf[32..40]),
    };
    Ok(header)
}

impl Unmarshal for SegmentHeader {
    /// Decode the header from the front of a received buffer.
    fn unmarshall(buf: &[u8]) -> (r: Result<Self, DecodeError>)
        ensures
            buf@.len() >= SEGMENT_HEADER_SIZE ==> r == Ok::<SegmentHeader, DecodeError>(
                spec_decode_header(buf@),
            ),
            buf@.len() < SEGMENT_HEADER_SIZE ==> r == Err::<SegmentHeader, DecodeError>(
                DecodeError::Truncated,
            ),
    {
        decode_header(buf)
    }
}

/// The unsigned two's-complement reading of `x`, as a machine integer.
fn u64_of_i64(x: i64) -> (r: u64)
    ensures
        r as int == spec_u64_of_i64(x),
{
    if x >= 0 {
        x as u64
    } else {
        ((x - i64::MIN) as u64) + 0x8000_0000_0000_0000
    }
}

/// Recompose a timestamp into its raw nanosecond count.
fn timestamp_to_nanos(t: &Timestamp) -> (r: u64)
    requires
        t.wf(),
    ensures
        r == t.as_nanos(),
{
    t.secs * NANOS_PER_SEC + (t.nanos as u64)
}

/// Re-encode a header into the exact 40 bytes that carry it.
pub fn encode_header(h: &SegmentHeader) -> (r: Vec<u8>)
    requires
        h.wf(),
    ensures
        r@ == spec_encode_header(*h),
        r@.len() == SEGMENT_HEADER_SIZE,
{
    let mut out: Vec<u8> = Vec::new();
    out.push(h.version);
    out.push(h.reserved);
    let mut piece = u16_to_le_bytes(h.message_protocol_id);
    out.append(&mut piece);
    let mut piece = u32_to_le_bytes(h.channel_id);
    out.append(&mut piece);
    let mut piece = u32_to_le_bytes(h.session_id);
    out.append(&mut piece);
    let mut piece = u16_to_le_bytes(h.payload_length);
    out.append(&mut piece);
    let mut piece = u16_to_le_bytes(h.message_count);
    out.append(&mut piece);
    let mut piece = u64_to_le_bytes(u64_of_i64(h.stream_offset));
    out.append(&mut piece);
    let mut piece = u64_to_le_bytes(u64_of_i64(h.first_message_sequence_number));
    out.append(&mut piece);
    let mut piece = u64_to_le_bytes(timestamp_to_nanos(&h.send_time));
    out.append(&mut piece);
    proof {
        assert(out@ =~= spec_encode_header(*h));
    }
    out
}

/// Decoding a valid 40-byte header buffer and re-encoding the decoded field
/// values reproduces the original bytes.
pub proof fn lemma_header_round_trip(b: Seq<u8>)
    requires
        b.len() == SEGMENT_HEADER_SIZE,
    ensures
        spec_encode_header(spec_decode_header(b)) == b,
{
    lemma_auto_spec_u16_to_from_le_bytes();
    lemma_auto_spec_u32_to_from_le_bytes();
    lemma_auto_spec_u64_to_from_le_bytes();
    let h = spec_decode_header(b);
    let so = spec_u64_from_le_bytes(b.subrange(16, 24));
    let sq = spec_u64_from_le_bytes(b.subrange(24, 32));
    let st = spec_u64_from_le_bytes(b.subrange(32, 40));
    assert(spec_u64_of_i64(h.stream_offset) == so);
    assert(spec_u64_of_i64(h.first_message_sequence_number) == sq);
    vstd::arithmetic::div_mod::lemma_fundamental_div_mod(st as int, NANOS_PER_SEC as int);
    assert(h.send_time.as_nanos() == st);
    assert(spec_encode_header(h) =~= b);
}

/// The message blocks denoted by a payload, read strictly sequentially:
/// a 2-byte little-endian length prefix, then that many bytes of block body,
/// repeated exactly `count` times with nothing left over. `None` when the
/// payload cannot be carved up that way.
pub open spec fn spec_split_messages(payload: Seq<u8>, count: nat) -> Option<Seq<Seq<u8>>>
    decreases count,
{
    if count == 0 {
        if payload.len() == 0 {
            Some(Seq::<Seq<u8>>::empty())
        } else {
            None
        }
    } else if payload.len() < 2 {
        None
    } else {
        let len = spec_u16_from_le_bytes(payload.subrange(0, 2)) as int;
        if payload.len() < 2 + len {
            None
        } else {
            match spec_split_messages(payload.skip(2 + len), (count - 1) as nat) {
                Some(rest) => Some(seq![payload.subrange(2, 2 + len)] + rest),
                None => None,
            }
        }
    }
}

/// Walk a segment payload and extract its declared count of length-prefixed
/// message blocks, in order. Fails with `MalformedSegment` when the payload
/// is exhausted before `message_count` blocks are read, or when bytes remain
/// after the last block.
pub fn split_messages(payload: &[u8], message_count: u16) -> (r: Result<Vec<Vec<u8>>, DecodeError>)
    ensures
        r is Ok <==> spec_split_messages(payload@, message_count as nat) is Some,
        r is Ok ==> r->Ok_0.deep_view() == spec_split_messages(
            payload@,
            message_count as nat,
        )->Some_0,
        r is Err ==> r == Err::<Vec<Vec<u8>>, DecodeError>(DecodeError::MalformedSegment),
{
    let mut blocks: Vec<Vec<u8>> = Vec::new();
    let mut pos: usize = 0;
    let mut i: u16 = 0;
    proof {
        assert(payload@.skip(0) =~= payload@);
        assert(blocks.deep_view() =~= Seq::<Seq<u8>>::empty());
    }
    while i < message_count
        invariant
            pos <= payload@.len(),
            i <= message_count,
            blocks.deep_view().len() == i,
            spec_split_messages(payload@, message_count as nat) == (match spec_split_messages(
                payload@.skip(pos as int),
                (message_count - i) as nat,
            ) {
                Some(rest) => Some(blocks.deep_view() + rest),
                None => None::<Seq<Seq<u8>>>,
            }),
        decreases message_count - i,
    {
        let ghost remaining = payload@.skip(pos as int);
        if payload.len() - pos < 2 {
            return Err(DecodeError::MalformedSegment);
        }
        let len = u16_from_le_bytes(&payload[pos..pos + 2]) as usize;
        proof {
            assert(remaining.subrange(0, 2) =~= payload@.subrange(pos as int, pos + 2));
        }
        if payload.len() - (pos + 2) < len {
            return Err(DecodeError::MalformedSegment);
        }
        let block: Vec<u8> = slice_to_vec(&payload[pos + 2..pos + 2 + len]);
        proof {
            let ghost old_blocks = blocks.deep_view();
            assert(remaining.subrange(2, 2 + len) =~= payload@.subrange(
                pos + 2,
                pos + 2 + len,
            ));
            assert(remaining.skip(2 + len) =~= payload@.skip(pos + 2 + len));
        }
        let ghost old_blocks = blocks.deep_view();
        blocks.push(block);
        proof {
            assert(blocks.deep_view() =~~= old_blocks.push(block@));
            let tail = spec_split_messages(
                payload@.skip(pos + 2 + len),
                (message_count - i - 1) as nat,
            );
            if tail is Some {
                assert(old_blocks + (seq![block@] + tail->Some_0) =~= blocks.deep_view()
                    + tail->Some_0);
            }
        }
        pos = pos + 2 + len;
        i = i + 1;
    }
    if pos != payload.len() {
        proof {
            assert(payload@.skip(pos as int).len() > 0);
        }
        return Err(DecodeError::MalformedSegment);
    }
    proof {
        assert(payload@.skip(pos as int).len() == 0);
        assert(blocks.deep_view() + Seq::<Seq<u8>>::empty() =~= blocks.deep_view());
    }
    Ok(blocks)
}

/// A segment that declares zero messages carries an empty payload: splitting
/// succeeds, with an empty block sequence, exactly when no payload bytes are
/// present.
pub proof fn lemma_split_zero_count(payload: Seq<u8>)
    ensures
        payload.len() == 0 ==> spec_split_messages(payload, 0) == Some(Seq::<Seq<u8>>::empty()),
        payload.len() != 0 ==> spec_split_messages(payload, 0) is None,
{
}

/// Every block is short enough for its 2-byte length prefix.
pub open spec fn blocks_wf(blocks: Seq<Seq<u8>>) -> bool {
    forall|i: int| 0 <= i < blocks.len() ==> (#[trigger] blocks[i]).len() < 0x10000
}

/// The payload that carries `blocks`: each block in order, preceded by its
/// 2-byte little-endian length prefix.
pub open spec fn spec_encode_blocks(blocks: Seq<Seq<u8>>) -> Seq<u8>
    decreases blocks.len(),
{
    if blocks.len() == 0 {
        Seq::<u8>::empty()
    } else {
        spec_u16_to_le_bytes(blocks[0].len() as u16) + blocks[0] + spec_encode_blocks(
            blocks.skip(1),
        )
    }
}

/// Splitting a well-formed payload of length-prefixed blocks yields exactly
/// the blocks present, in their original order, each with its bytes intact.
pub proof fn lemma_split_round_trip(blocks: Seq<Seq<u8>>)
    requires
        blocks_wf(blocks),
    ensures
        spec_split_messages(spec_encode_blocks(blocks), blocks.len()) == Some(blocks),
    decreases blocks.len(),
{
    lemma_auto_spec_u16_to_from_le_bytes();
    if blocks.len() == 0 {
        assert(blocks =~= Seq::<Seq<u8>>::empty());
    } else {
        let b0 = blocks[0];
        let prefix = spec_u16_to_le_bytes(b0.len() as u16);
        let enc = spec_encode_blocks(blocks);
        let rest_enc = spec_encode_blocks(blocks.skip(1));
        assert(enc.subrange(0, 2) =~= prefix);
        assert(spec_u16_from_le_bytes(enc.subrange(0, 2)) == b0.len());
        assert(enc.subrange(2, 2 + b0.len() as int) =~= b0);
        assert(enc.skip(2 + b0.len() as int) =~= rest_enc);
        lemma_split_round_trip(blocks.skip(1));
        assert(seq![b0] + blocks.skip(1) =~= blocks);
    }
}

} // verus!
