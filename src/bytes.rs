use vstd::prelude::*;
use byteorder::{BigEndian, ByteOrder};

verus! {

/// The big-endian value of two bytes.
pub open spec fn be_u16(b: Seq<u8>) -> u16 {
    ((b[0] as u16) << 8u16) | (b[1] as u16)
}

/// The big-endian value of four bytes.
pub open spec fn be_u32(b: Seq<u8>) -> u32 {
    ((b[0] as u32) << 24u32) | ((b[1] as u32) << 16u32) | ((b[2] as u32) << 8u32) | (b[3] as u32)
}

/// The big-endian value of eight bytes.
pub open spec fn be_u64(b: Seq<u8>) -> u64 {
    ((b[0] as u64) << 56u64) | ((b[1] as u64) << 48u64) | ((b[2] as u64) << 40u64) | ((b[3] as u64)
        << 32u64) | ((b[4] as u64) << 24u64) | ((b[5] as u64) << 16u64) | ((b[6] as u64) << 8u64) | (
    b[7] as u64)
}

/// The big-endian bytes of a `u16`.
pub open spec fn bytes_u16(n: u16) -> Seq<u8> {
    seq![(n >> 8u16) as u8, n as u8]
}

/// The big-endian bytes of a `u32`.
pub open spec fn bytes_u32(n: u32) -> Seq<u8> {
    seq![(n >> 24u32) as u8, (n >> 16u32) as u8, (n >> 8u32) as u8, n as u8]
}

/// The big-endian bytes of a `u64`.
pub open spec fn bytes_u64(n: u64) -> Seq<u8> {
    seq![
        (n >> 56u64) as u8,
        (n >> 48u64) as u8,
        (n >> 40u64) as u8,
        (n >> 32u64) as u8,
        (n >> 24u64) as u8,
        (n >> 16u64) as u8,
        (n >> 8u64) as u8,
        n as u8,
    ]
}

/// Relies on `byteorder`'s `BigEndian::read_u16`: the first two bytes, most significant first.
#[verifier::external_body]
pub(crate) fn read_u16_at(buf: &Vec<u8>, pos: usize) -> (r: u16)
    requires
        pos + 2 <= buf@.len(),
    ensures
        r == be_u16(buf@.subrange(pos as int, pos + 2)),
{
    BigEndian::read_u16(&buf[pos..])
}

/// Relies on `byteorder`'s `BigEndian::read_u32`: the first four bytes, most significant first.
#[verifier::external_body]
pub(crate) fn read_u32_at(buf: &Vec<u8>, pos: usize) -> (r: u32)
    requires
        pos + 4 <= buf@.len(),
    ensures
        r == be_u32(buf@.subrange(pos as int, pos + 4)),
{
    BigEndian::read_u32(&buf[pos..])
}

/// Relies on `byteorder`'s `BigEndian::read_u64`: the first eight bytes, most significant first.
#[verifier::external_body]
pub(crate) fn read_u64_at(buf: &Vec<u8>, pos: usize) -> (r: u64)
    requires
        pos + 8 <= buf@.len(),
    ensures
        r == be_u64(buf@.subrange(pos as int, pos + 8)),
{
    BigEndian::read_u64(&buf[pos..])
}

/// Relies on `byteorder`'s `BigEndian::write_u16`: two bytes, most significant first.
#[verifier::external_body]
pub(crate) fn u16_bytes(n: u16) -> (r: Vec<u8>)
    ensures
        r@ == bytes_u16(n),
{
    let mut b = vec![0u8; 2];
    BigEndian::write_u16(&mut b, n);
    b
}

/// Relies on `byteorder`'s `BigEndian::write_u32`: four bytes, most significant first.
#[verifier::external_body]
pub(crate) fn u32_bytes(n: u32) -> (r: Vec<u8>)
    ensures
        r@ == bytes_u32(n),
{
    let mut b = vec![0u8; 4];
    BigEndian::write_u32(&mut b, n);
    b
}

/// Relies on `byteorder`'s `BigEndian::write_u64`: eight bytes, most significant first.
#[verifier::external_body]
pub(crate) fn u64_bytes(n: u64) -> (r: Vec<u8>)
    ensures
        r@ == bytes_u64(n),
{
    let mut b = vec![0u8; 8];
    BigEndian::write_u64(&mut b, n);
    b
}

/// Relies on `byteorder`'s `BigEndian::write_i64`: `write_u64` of the two's complement bits.
#[verifier::external_body]
pub(crate) fn i64_bytes(n: i64) -> (r: Vec<u8>)
    ensures
        r@ == bytes_u64(n as u64),
{
    let mut b = vec![0u8; 8];
    BigEndian::write_i64(&mut b, n);
    b
}

pub proof fn lemma_u16_round_trip(n: u16)
    ensures
        be_u16(bytes_u16(n)) == n,
{
    let b = bytes_u16(n);
    assert((((((n >> 8u16) as u8) as u16) << 8u16) | ((n as u8) as u16)) == n) by (bit_vector);
}

pub proof fn lemma_u32_round_trip(n: u32)
    ensures
        be_u32(bytes_u32(n)) == n,
{
    assert((((((n >> 24u32) as u8) as u32) << 24u32) | ((((n >> 16u32) as u8) as u32) << 16u32) | ((((
    n >> 8u32) as u8) as u32) << 8u32) | ((n as u8) as u32)) == n) by (bit_vector);
}

pub proof fn lemma_u64_round_trip(n: u64)
    ensures
        be_u64(bytes_u64(n)) == n,
{
    assert((((((n >> 56u64) as u8) as u64) << 56u64) | ((((n >> 48u64) as u8) as u64) << 48u64) | ((((
    n >> 40u64) as u8) as u64) << 40u64) | ((((n >> 32u64) as u8) as u64) << 32u64) | ((((n
        >> 24u64) as u8) as u64) << 24u64) | ((((n >> 16u64) as u8) as u64) << 16u64) | ((((n
        >> 8u64) as u8) as u64) << 8u64) | ((n as u8) as u64)) == n) by (bit_vector);
}

pub proof fn lemma_i64_round_trip(n: i64)
    ensures
        be_u64(bytes_u64(n as u64)) as i64 == n,
{
    lemma_u64_round_trip(n as u64);
    assert(((n as u64) as i64) == n) by (bit_vector);
}

/// Appends `src` to `dst`.
pub(crate) fn append_bytes(dst: &mut Vec<u8>, src: &[u8])
    ensures
        final(dst)@ == old(dst)@ + src@,
{
    let mut i: usize = 0;
    while i < src.len()
        invariant
            0 <= i <= src@.len(),
            dst@ == old(dst)@ + src@.subrange(0, i as int),
        decreases src@.len() - i,
    {
        dst.push(src[i]);
        i += 1;
        assert(src@.subrange(0, i as int) =~= src@.subrange(0, i - 1) + seq![src@[i - 1]]);
    }
    assert(src@.subrange(0, src@.len() as int) =~= src@);
}

} // verus!
