use vstd::prelude::*;

use vstd::slice::{slice_subrange, slice_to_vec};

verus! {

/// Wire header length: four little-endian 32-bit words.
pub const HEADER_LEN: usize = 16;

/// Version word of every reply.
pub const REPLY_VERSION: u32 = 1;

/// Message-type word of every reply: a property-list payload.
pub const REPLY_MSG_TYPE: u32 = 8;

/// Size of the connection read buffer.
pub const READ_BUF_LEN: usize = 4095;

/// The four little-endian bytes of a 32-bit word.
pub open spec fn u32_le_bytes(x: u32) -> Seq<u8> {
    seq![
        (x & 0xff) as u8,
        ((x >> 8) & 0xff) as u8,
        ((x >> 16) & 0xff) as u8,
        ((x >> 24) & 0xff) as u8,
    ]
}

/// The 32-bit word held by four little-endian bytes.
pub open spec fn u32_le_val(s: Seq<u8>) -> u32
    recommends
        s.len() == 4,
{
    (s[0] as u32) | ((s[1] as u32) << 8) | ((s[2] as u32) << 16) | ((s[3] as u32) << 24)
}

pub proof fn lemma_u32_le_round(x: u32)
    ensures
        u32_le_val(u32_le_bytes(x)) == x,
{
    assert((((x & 0xff) as u8 as u32) | ((((x >> 8) & 0xff) as u8 as u32) << 8) | ((((x >> 16)
        & 0xff) as u8 as u32) << 16) | ((((x >> 24) & 0xff) as u8 as u32) << 24)) == x)
        by (bit_vector);
}

/// Total length word of a packet (includes the header).
pub open spec fn packet_total_len(b: Seq<u8>) -> u32 {
    u32_le_val(b.subrange(0, 4))
}

/// Version word of a packet.
pub open spec fn packet_version(b: Seq<u8>) -> u32 {
    u32_le_val(b.subrange(4, 8))
}

/// Message-type word of a packet.
pub open spec fn packet_msg_type(b: Seq<u8>) -> u32 {
    u32_le_val(b.subrange(8, 12))
}

/// Tag word of a packet.
pub open spec fn packet_tag(b: Seq<u8>) -> u32 {
    u32_le_val(b.subrange(12, 16))
}

/// Why a byte string is not (yet) a packet: more bytes must be read, or the
/// header is contradictory.
#[derive(Clone, Copy, PartialEq, Eq, Structural, Debug)]
pub enum PacketError {
    Incomplete,
    Malformed,
}

fn read_u32_le(b: &[u8], off: usize) -> (r: u32)
    requires
        off + 4 <= b@.len(),
    ensures
        r == u32_le_val(b@.subrange(off as int, off as int + 4)),
{
    let r = (b[off] as u32) | ((b[off + 1] as u32) << 8) | ((b[off + 2] as u32) << 16) | ((b[off
        + 3] as u32) << 24);
    proof {
        let s = b@.subrange(off as int, off as int + 4);
        assert(s[0] == b@[off as int]);
        assert(s[1] == b@[off as int + 1]);
        assert(s[2] == b@[off as int + 2]);
        assert(s[3] == b@[off as int + 3]);
    }
    r
}

fn push_u32_le(out: &mut Vec<u8>, x: u32)
    ensures
        final(out)@ == old(out)@ + u32_le_bytes(x),
{
    out.push((x & 0xff) as u8);
    out.push(((x >> 8) & 0xff) as u8);
    out.push(((x >> 16) & 0xff) as u8);
    out.push(((x >> 24) & 0xff) as u8);
    proof {
        assert(x & 0xff <= 0xff) by (bit_vector);
        assert((x >> 8) & 0xff <= 0xff) by (bit_vector);
        assert((x >> 16) & 0xff <= 0xff) by (bit_vector);
        assert((x >> 24) & 0xff <= 0xff) by (bit_vector);
        assert(out@ =~= old(out)@ + u32_le_bytes(x));
    }
}

/// A framed reply as one byte string: the four little-endian header words —
/// total length, version 1, message type 8, the tag — followed by the body.
pub open spec fn framed_reply(body: Seq<u8>, tag: u32) -> Seq<u8> {
    u32_le_bytes((16 + body.len()) as u32) + u32_le_bytes(1) + u32_le_bytes(8) + u32_le_bytes(tag)
        + body
}

/// Frames a reply body: sixteen header bytes — total length, version 1,
/// message type 8, the echoed tag — followed by the body.
pub fn encode_packet(body: &[u8], tag: u32) -> (r: Vec<u8>)
    requires
        body@.len() + 16 <= u32::MAX,
    ensures
        r@ == framed_reply(body@, tag),
        r@.len() == 16 + body@.len(),
        r@.subrange(0, 4) == u32_le_bytes((16 + body@.len()) as u32),
        r@.subrange(4, 8) == u32_le_bytes(1),
        r@.subrange(8, 12) == u32_le_bytes(8),
        r@.subrange(12, 16) == u32_le_bytes(tag),
        r@.skip(16) == body@,
        packet_total_len(r@) == 16 + body@.len(),
        packet_version(r@) == 1,
        packet_msg_type(r@) == 8,
        packet_tag(r@) == tag,
{
    let total: u32 = (body.len() as u32) + 16;
    let mut out: Vec<u8> = Vec::new();
    push_u32_le(&mut out, total);
    push_u32_le(&mut out, REPLY_VERSION);
    push_u32_le(&mut out, REPLY_MSG_TYPE);
    push_u32_le(&mut out, tag);
    let mut rest = slice_to_vec(body);
    out.append(&mut rest);
    proof {
        assert(out@.subrange(0, 4) =~= u32_le_bytes(total));
        assert(out@.subrange(4, 8) =~= u32_le_bytes(1));
        assert(out@.subrange(8, 12) =~= u32_le_bytes(8));
        assert(out@.subrange(12, 16) =~= u32_le_bytes(tag));
        assert(out@.skip(16) =~= body@);
        assert(out@ =~= framed_reply(body@, tag));
        lemma_u32_le_round(total);
        lemma_u32_le_round(1);
        lemma_u32_le_round(8);
        lemma_u32_le_round(tag);
        assert(packet_total_len(out@) == u32_le_val(u32_le_bytes(total)));
        assert(packet_version(out@) == u32_le_val(u32_le_bytes(1)));
        assert(packet_msg_type(out@) == u32_le_val(u32_le_bytes(8)));
        assert(packet_tag(out@) == u32_le_val(u32_le_bytes(tag)));
    }
    out
}

/// Parses a complete packet: yields the tag and the body bytes. `Incomplete`
/// asks the caller to read more; `Malformed` reports a length word below the
/// header size.
pub fn decode_packet(bytes: &[u8]) -> (r: Result<(u32, Vec<u8>), PacketError>)
    ensures
        bytes@.len() < 16 ==> r == Result::<(u32, Vec<u8>), PacketError>::Err(
            PacketError::Incomplete,
        ),
        bytes@.len() >= 16 && packet_total_len(bytes@) < 16 ==> r == Result::<
            (u32, Vec<u8>),
            PacketError,
        >::Err(PacketError::Malformed),
        bytes@.len() >= 16 && packet_total_len(bytes@) >= 16 && bytes@.len() < packet_total_len(
            bytes@,
        ) ==> r == Result::<(u32, Vec<u8>), PacketError>::Err(PacketError::Incomplete),
        bytes@.len() >= 16 && 16 <= packet_total_len(bytes@) <= bytes@.len() ==> (r matches Ok(p)
            && p.0 == packet_tag(bytes@) && p.1@ == bytes@.subrange(
            16,
            packet_total_len(bytes@) as int,
        )),
{
    if bytes.len() < HEADER_LEN {
        return Err(PacketError::Incomplete);
    }
    let total = read_u32_le(bytes, 0);
    if total < 16 {
        return Err(PacketError::Malformed);
    }
    if (bytes.len() as u64) < (total as u64) {
        return Err(PacketError::Incomplete);
    }
    let tag = read_u32_le(bytes, 12);
    let body = slice_to_vec(slice_subrange(bytes, 16, total as usize));
    Ok((tag, body))
}

/// Concatenates the two reads of a connection: when the first read delivered
/// exactly the sixteen header bytes, the body arrives in a second read and the
/// two are joined before decoding.
pub fn assemble_reads(first: &Vec<u8>, second: &Vec<u8>) -> (r: Vec<u8>)
    requires
        first@.len() + second@.len() <= READ_BUF_LEN,
    ensures
        r@ == if first@.len() == 16 {
            first@ + second@
        } else {
            first@
        },
{
    let mut out = first.clone();
    if first.len() == 16 {
        let mut rest = second.clone();
        out.append(&mut rest);
        proof {
            assert(out@ =~= first@ + second@);
        }
    }
    out
}

/// A second read is issued exactly when the first one delivered the bare header.
pub fn needs_second_read(first_len: usize) -> (r: bool)
    ensures
        r == (first_len == 16),
{
    first_len == 16
}

} // verus!
