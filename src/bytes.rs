use vstd::prelude::*;
use vstd::arithmetic::div_mod::lemma_fundamental_div_mod_converse;
use vstd::slice::slice_subrange;

verus! {

/// Byte order of the multi-byte integers in a record.
#[derive(Debug, Clone, Copy, PartialEq, Eq, Structural)]
pub enum Endian {
    Little,
    Big,
}

/// The value of the first four bytes, least significant first.
pub open spec fn le_value(b: Seq<u8>) -> int {
    b[0] as int + 256 * b[1] as int + 65536 * b[2] as int + 16777216 * b[3] as int
}

/// The value of the first four bytes, most significant first.
pub open spec fn be_value(b: Seq<u8>) -> int {
    b[3] as int + 256 * b[2] as int + 65536 * b[1] as int + 16777216 * b[0] as int
}

/// The four bytes of `n`, least significant first.
pub open spec fn le_bytes(n: u32) -> Seq<u8> {
    seq![(n % 256) as u8, ((n / 256) % 256) as u8, ((n / 65536) % 256) as u8, (n / 16777216) as u8]
}

/// The four bytes of `n`, most significant first.
pub open spec fn be_bytes(n: u32) -> Seq<u8> {
    seq![(n / 16777216) as u8, ((n / 65536) % 256) as u8, ((n / 256) % 256) as u8, (n % 256) as u8]
}

/// The 32-bit integer that the first four bytes of `b` hold in byte order `order`.
pub open spec fn decode_u32(order: Endian, b: Seq<u8>) -> u32 {
    match order {
        Endian::Little => le_value(b) as u32,
        Endian::Big => be_value(b) as u32,
    }
}

/// The four bytes that hold `n` in byte order `order`.
pub open spec fn encode_u32(order: Endian, n: u32) -> Seq<u8> {
    match order {
        Endian::Little => le_bytes(n),
        Endian::Big => be_bytes(n),
    }
}

/// Relies on byteorder's `LittleEndian::read_u32`: the first four bytes of
/// `buf`, least significant first (it panics on fewer than four).
#[verifier::external_body]
fn read_u32_le(buf: &[u8]) -> (r: u32)
    requires
        buf@.len() >= 4,
    ensures
        r as int == le_value(buf@),
{
    <byteorder::LittleEndian as byteorder::ByteOrder>::read_u32(buf)
}

/// Relies on byteorder's `BigEndian::read_u32`: the first four bytes of
/// `buf`, most significant first (it panics on fewer than four).
#[verifier::external_body]
fn read_u32_be(buf: &[u8]) -> (r: u32)
    requires
        buf@.len() >= 4,
    ensures
        r as int == be_value(buf@),
{
    <byteorder::BigEndian as byteorder::ByteOrder>::read_u32(buf)
}

/// Relies on byteorder's `LittleEndian::write_u32`: it stores `n` in the
/// first four bytes of the buffer, least significant first.
#[verifier::external_body]
fn write_u32_le(n: u32) -> (r: Vec<u8>)
    ensures
        r@ == le_bytes(n),
{
    let mut buf = vec![0u8; 4];
    <byteorder::LittleEndian as byteorder::ByteOrder>::write_u32(&mut buf, n);
    buf
}

/// Relies on byteorder's `BigEndian::write_u32`: it stores `n` in the first
/// four bytes of the buffer, most significant first.
#[verifier::external_body]
fn write_u32_be(n: u32) -> (r: Vec<u8>)
    ensures
        r@ == be_bytes(n),
{
    let mut buf = vec![0u8; 4];
    <byteorder::BigEndian as byteorder::ByteOrder>::write_u32(&mut buf, n);
    buf
}

/// Reads the 32-bit integer stored at byte `at` of `bytes` in byte order `order`.
pub fn read_u32(order: Endian, bytes: &[u8], at: usize) -> (r: u32)
    requires
        at + 4 <= bytes@.len(),
    ensures
        r == decode_u32(order, bytes@.subrange(at as int, at + 4)),
{
    let len = bytes.len();
    assert(at + 4 <= len);
    let window = slice_subrange(bytes, at, at + 4);
    match order {
        Endian::Little => read_u32_le(window),
        Endian::Big => read_u32_be(window),
    }
}

/// Appends the four bytes of `n` in byte order `order` to `out`.
pub fn push_u32(order: Endian, n: u32, out: &mut Vec<u8>)
    ensures
        final(out)@ == old(out)@ + encode_u32(order, n),
{
    let mut bytes = match order {
        Endian::Little => write_u32_le(n),
        Endian::Big => write_u32_be(n),
    };
    out.append(&mut bytes);
}

/// Four bytes decoded and encoded again in one byte order come back unchanged.
pub proof fn lemma_u32_round_trip(order: Endian, b: Seq<u8>)
    requires
        b.len() == 4,
    ensures
        encode_u32(order, decode_u32(order, b)) == b,
{
    let (b0, b1, b2, b3) = match order {
        Endian::Little => (b[0] as int, b[1] as int, b[2] as int, b[3] as int),
        Endian::Big => (b[3] as int, b[2] as int, b[1] as int, b[0] as int),
    };
    let n = b0 + 256 * b1 + 65536 * b2 + 16777216 * b3;
    assert(0 <= n < 0x1_0000_0000);
    lemma_fundamental_div_mod_converse(n, 256, b1 + 256 * b2 + 65536 * b3, b0);
    lemma_fundamental_div_mod_converse(n / 256, 256, b2 + 256 * b3, b1);
    lemma_fundamental_div_mod_converse(n, 65536, b2 + 256 * b3, b0 + 256 * b1);
    lemma_fundamental_div_mod_converse(n / 65536, 256, b3, b2);
    lemma_fundamental_div_mod_converse(n, 16777216, b3, b0 + 256 * b1 + 65536 * b2);
    let m = decode_u32(order, b);
    assert(m as int == n);
    assert(encode_u32(order, m) =~= b);
}

} // verus!
