use vstd::prelude::*;

use crate::error::TransferError;

verus! {

/// Width of the size header in bytes: one unsigned 64-bit length,
/// big-endian, sent once before any chunk.
pub const SIZE_LEN: usize = 8;

/// The eight big-endian bytes that encode a 64-bit length.
pub open spec fn size_header_bytes(v: u64) -> Seq<u8> {
    seq![
        ((v >> 56) & 0xff) as u8,
        ((v >> 48) & 0xff) as u8,
        ((v >> 40) & 0xff) as u8,
        ((v >> 32) & 0xff) as u8,
        ((v >> 24) & 0xff) as u8,
        ((v >> 16) & 0xff) as u8,
        ((v >> 8) & 0xff) as u8,
        (v & 0xff) as u8,
    ]
}

/// The 64-bit length that the first eight bytes of `s` encode,
/// big-endian.
pub open spec fn header_value(s: Seq<u8>) -> u64
    recommends
        s.len() >= 8,
{
    (((s[0] as u64) << 56) | ((s[1] as u64) << 48) | ((s[2] as u64) << 40) | ((s[3] as u64) << 32)
        | ((s[4] as u64) << 24) | ((s[5] as u64) << 16) | ((s[6] as u64) << 8) | (s[7] as u64))
}

/// Decoding the header undoes encoding it: the eight bytes produced
/// for a length read back as that same length.
pub proof fn lemma_header_round_trip(v: u64)
    ensures
        header_value(size_header_bytes(v)) == v,
{
    let s = size_header_bytes(v);
    assert(s[0] == ((v >> 56) & 0xff) as u8);
    assert(s[1] == ((v >> 48) & 0xff) as u8);
    assert(s[2] == ((v >> 40) & 0xff) as u8);
    assert(s[3] == ((v >> 32) & 0xff) as u8);
    assert(s[4] == ((v >> 24) & 0xff) as u8);
    assert(s[5] == ((v >> 16) & 0xff) as u8);
    assert(s[6] == ((v >> 8) & 0xff) as u8);
    assert(s[7] == (v & 0xff) as u8);
    assert(((((v >> 56) & 0xff) as u8 as u64) << 56) | ((((v >> 48) & 0xff) as u8 as u64) << 48)
        | ((((v >> 40) & 0xff) as u8 as u64) << 40) | ((((v >> 32) & 0xff) as u8 as u64) << 32)
        | ((((v >> 24) & 0xff) as u8 as u64) << 24) | ((((v >> 16) & 0xff) as u8 as u64) << 16)
        | ((((v >> 8) & 0xff) as u8 as u64) << 8) | ((v & 0xff) as u8 as u64) == v)
        by (bit_vector);
}

/// Encode a file length as the eight-byte big-endian size header.
pub fn encode_size_header(v: u64) -> (r: Vec<u8>)
    ensures
        r@ == size_header_bytes(v),
        r@.len() == 8,
{
    let mut r: Vec<u8> = Vec::new();
    r.push(((v >> 56) & 0xff) as u8);
    r.push(((v >> 48) & 0xff) as u8);
    r.push(((v >> 40) & 0xff) as u8);
    r.push(((v >> 32) & 0xff) as u8);
    r.push(((v >> 24) & 0xff) as u8);
    r.push(((v >> 16) & 0xff) as u8);
    r.push(((v >> 8) & 0xff) as u8);
    r.push((v & 0xff) as u8);
    proof {
        assert(r@ =~= size_header_bytes(v));
    }
    r
}

/// Read the size header from the front of `bytes`. Fails with
/// `ProtocolError` exactly when fewer than eight bytes are present.
pub fn decode_size_header(bytes: &Vec<u8>) -> (r: Result<u64, TransferError>)
    ensures
        match r {
            Ok(v) => bytes@.len() >= 8 && v == header_value(bytes@),
            Err(e) => bytes@.len() < 8 && e == TransferError::ProtocolError,
        },
{
    if bytes.len() < 8 {
        return Err(TransferError::ProtocolError);
    }
    let v: u64 = ((bytes[0] as u64) << 56) | ((bytes[1] as u64) << 48) | ((bytes[2] as u64) << 40)
        | ((bytes[3] as u64) << 32) | ((bytes[4] as u64) << 24) | ((bytes[5] as u64) << 16)
        | ((bytes[6] as u64) << 8) | (bytes[7] as u64);
    Ok(v)
}

} // verus!
