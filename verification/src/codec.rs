use vstd::prelude::*;

verus! {

use vstd::bytes::{
    spec_u64_from_le_bytes, spec_u64_to_le_bytes, u64_from_le_bytes, u64_to_le_bytes,
    lemma_auto_spec_u64_to_from_le_bytes,
};

/// The unsigned 64-bit two's-complement image of a signed 64-bit value.
pub open spec fn spec_i64_to_u64(x: i64) -> u64 {
    if x >= 0 {
        x as u64
    } else {
        (x + 0x1_0000_0000_0000_0000) as u64
    }
}

/// The signed 64-bit value whose two's-complement image is the given
/// unsigned value.
pub open spec fn spec_u64_to_i64(u: u64) -> i64 {
    if u < 0x8000_0000_0000_0000 {
        u as i64
    } else {
        (u - 0x1_0000_0000_0000_0000) as i64
    }
}

/// The two's-complement mappings between signed and unsigned 64-bit values
/// invert each other.
pub proof fn lemma_i64_u64_roundtrip()
    ensures
        forall|x: i64| #[trigger] spec_u64_to_i64(spec_i64_to_u64(x)) == x,
        forall|u: u64| #[trigger] spec_i64_to_u64(spec_u64_to_i64(u)) == u,
{
}

/// The little-endian encoding of a signed 64-bit value.
pub open spec fn spec_i64_to_le_bytes(x: i64) -> Seq<u8> {
    spec_u64_to_le_bytes(spec_i64_to_u64(x))
}

/// The signed 64-bit value read from eight little-endian bytes.
pub open spec fn spec_i64_from_le_bytes(s: Seq<u8>) -> i64 {
    spec_u64_to_i64(spec_u64_from_le_bytes(s))
}

/// Encoding a signed 64-bit value yields eight bytes that decode back to it,
/// and decoding any eight bytes yields a value that encodes back to them.
pub proof fn lemma_auto_i64_le_bytes_roundtrip()
    ensures
        forall|x: i64|
            #![trigger spec_i64_to_le_bytes(x)]
            {
                &&& spec_i64_to_le_bytes(x).len() == 8
                &&& spec_i64_from_le_bytes(spec_i64_to_le_bytes(x)) == x
            },
        forall|s: Seq<u8>|
            #![trigger spec_i64_to_le_bytes(spec_i64_from_le_bytes(s))]
            s.len() == 8 ==> spec_i64_to_le_bytes(spec_i64_from_le_bytes(s)) == s,
{
    lemma_auto_spec_u64_to_from_le_bytes();
    lemma_i64_u64_roundtrip();
}

/// Reinterprets a signed 64-bit value as its two's-complement unsigned image.
pub fn i64_to_u64(x: i64) -> (r: u64)
    ensures
        r == spec_i64_to_u64(x),
{
    if x >= 0 {
        x as u64
    } else {
        let y: i64 = (x + i64::MAX) + 1;
        (y as u64) + 0x8000_0000_0000_0000
    }
}

/// Reinterprets an unsigned 64-bit value as the signed value it images.
pub fn u64_to_i64(u: u64) -> (r: i64)
    ensures
        r == spec_u64_to_i64(u),
{
    if u < 0x8000_0000_0000_0000 {
        u as i64
    } else {
        let d: u64 = u - 0x8000_0000_0000_0000;
        ((d as i64) - i64::MAX) - 1
    }
}

/// Encodes a signed 64-bit value as eight little-endian bytes.
pub fn i64_to_le_bytes(x: i64) -> (s: Vec<u8>)
    ensures
        s@ == spec_i64_to_le_bytes(x),
        s@.len() == 8,
{
    proof {
        lemma_auto_spec_u64_to_from_le_bytes();
    }
    u64_to_le_bytes(i64_to_u64(x))
}

/// Decodes a signed 64-bit value from eight little-endian bytes.
pub fn i64_from_le_bytes(s: &[u8]) -> (x: i64)
    requires
        s@.len() == 8,
    ensures
        x == spec_i64_from_le_bytes(s@),
{
    u64_to_i64(u64_from_le_bytes(s))
}

} // verus!
