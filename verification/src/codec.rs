//! Wire encoding of one sample.
//!
//! A sample is a signed 16-bit reading. On the wire it is two bytes,
//! little-endian, holding the reading's two's-complement bits. The node
//! writes those bytes; the host reads them back as an *unsigned* 16-bit
//! integer. That signed/unsigned mismatch is part of the wire contract and
//! is deliberately kept, not corrected, here.

use vstd::prelude::*;

verus! {

/// The two little-endian bytes that carry a sample's two's-complement bits.
pub open spec fn spec_encode(s: i16) -> Seq<u8> {
    seq![(s as u16 & 0xff) as u8, ((s as u16 >> 8) & 0xff) as u8]
}

/// The unsigned value the host reads out of two payload bytes:
/// low byte first, high byte second.
pub open spec fn spec_decode(b0: u8, b1: u8) -> u16 {
    (b0 as u16) | ((b1 as u16) << 8)
}

/// Encode one signed reading as its 2-byte little-endian wire form.
pub fn encode_sample(s: i16) -> (p: Vec<u8>)
    ensures
        p@ == spec_encode(s),
{
    let w = s as u16;
    let lo = (w & 0xff) as u8;
    let hi = ((w >> 8) & 0xff) as u8;
    let mut p: Vec<u8> = Vec::new();
    p.push(lo);
    p.push(hi);
    assert(p@ =~= spec_encode(s));
    p
}

/// Decode a notification payload into the unsigned 16-bit metric.
///
/// The first two bytes decide the value; any trailing bytes are ignored,
/// as the host reads only the low and high byte. A payload shorter than
/// two bytes is malformed and is dropped (`None`) rather than decoded.
pub fn decode_payload(p: &Vec<u8>) -> (m: Option<u16>)
    ensures
        p@.len() >= 2 ==> m == Some(spec_decode(p@[0], p@[1])),
        p@.len() < 2 ==> m is None,
{
    if p.len() >= 2 {
        let b0 = p[0];
        let b1 = p[1];
        Some((b0 as u16) | ((b1 as u16) << 8))
    } else {
        None
    }
}

/// Decoding the wire form of a signed reading yields exactly that reading
/// reinterpreted as unsigned 16-bit. The signed/unsigned mismatch is thus
/// visible: a negative reading round-trips to its two's-complement image.
pub proof fn lemma_round_trip(s: i16)
    ensures
        spec_decode(spec_encode(s)[0], spec_encode(s)[1]) == s as u16,
{
    let w = s as u16;
    let b0 = (w & 0xff) as u8;
    let b1 = ((w >> 8) & 0xff) as u8;
    assert(spec_encode(s)[0] == b0);
    assert(spec_encode(s)[1] == b1);
    assert((b0 as u16) | ((b1 as u16) << 8) == w) by (bit_vector)
        requires
            b0 == (w & 0xff) as u8,
            b1 == ((w >> 8) & 0xff) as u8,
    ;
}

} // verus!
