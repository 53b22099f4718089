//! Little endian encodings of integers inside a CAN frame's eight data bytes.
//!
//! The byte order itself is implemented by the `byteorder` crate; the functions here only
//! state what its `LittleEndian` reads and writes mean.
use byteorder::{ByteOrder, LittleEndian as LE};
use vstd::prelude::*;

verus! {

/// The value of the two bytes at `at` read as an unsigned little endian integer.
pub open spec fn le_u16_at(bytes: Seq<u8>, at: int) -> int {
    bytes[at] + 256 * bytes[at + 1]
}

/// The value of the four bytes at `at` read as an unsigned little endian integer.
pub open spec fn le_u32_at(bytes: Seq<u8>, at: int) -> int {
    bytes[at] + 256 * bytes[at + 1] + 65536 * bytes[at + 2] + 16777216 * bytes[at + 3]
}

/// Two's complement reading of a 16 bit pattern.
pub open spec fn signed16(u: int) -> int {
    if u < 32768 { u } else { u - 65536 }
}

/// Two's complement reading of a 32 bit pattern.
pub open spec fn signed32(u: int) -> int {
    if u < 2147483648 { u } else { u - 4294967296 }
}

/// The 16 bit pattern of a signed value.
pub open spec fn unsigned16(n: int) -> int {
    if n < 0 { n + 65536 } else { n }
}

/// The 32 bit pattern of a signed value.
pub open spec fn unsigned32(n: int) -> int {
    if n < 0 { n + 4294967296 } else { n }
}

/// `bytes` after the unsigned value `n` (below 2^16) was written little endian at `at`.
pub open spec fn put_le16(bytes: Seq<u8>, at: int, n: int) -> Seq<u8> {
    bytes.update(at, (n % 256) as u8).update(at + 1, (n / 256) as u8)
}

/// `bytes` after the unsigned value `n` (below 2^32) was written little endian at `at`.
pub open spec fn put_le32(bytes: Seq<u8>, at: int, n: int) -> Seq<u8> {
    bytes.update(at, (n % 256) as u8)
        .update(at + 1, ((n / 256) % 256) as u8)
        .update(at + 2, ((n / 65536) % 256) as u8)
        .update(at + 3, (n / 16777216) as u8)
}

/// `LittleEndian::read_u16` on the two bytes at `idx`: their unsigned little endian value.
#[verifier::external_body]
pub(crate) fn read_u16_at(buf: &[u8], idx: usize) -> (r: u16)
    requires
        idx + 2 <= buf@.len(),
    ensures
        r as int == le_u16_at(buf@, idx as int),
{
    LE::read_u16(&buf[idx..idx + 2])
}

/// `LittleEndian::read_u32` on the four bytes at `idx`: their unsigned little endian value.
#[verifier::external_body]
pub(crate) fn read_u32_at(buf: &[u8], idx: usize) -> (r: u32)
    requires
        idx + 4 <= buf@.len(),
    ensures
        r as int == le_u32_at(buf@, idx as int),
{
    LE::read_u32(&buf[idx..idx + 4])
}

/// `LittleEndian::read_i16` on the two bytes at `idx`: their two's complement little endian
/// value.
#[verifier::external_body]
pub(crate) fn read_i16_at(buf: &[u8], idx: usize) -> (r: i16)
    requires
        idx + 2 <= buf@.len(),
    ensures
        r as int == signed16(le_u16_at(buf@, idx as int)),
{
    LE::read_i16(&buf[idx..idx + 2])
}

/// `LittleEndian::read_i32` on the four bytes at `idx`: their two's complement little endian
/// value.
#[verifier::external_body]
pub(crate) fn read_i32_at(buf: &[u8], idx: usize) -> (r: i32)
    requires
        idx + 4 <= buf@.len(),
    ensures
        r as int == signed32(le_u32_at(buf@, idx as int)),
{
    LE::read_i32(&buf[idx..idx + 4])
}

/// `LittleEndian::write_u16` into the two bytes at `idx`: low byte first, nothing else changes.
#[verifier::external_body]
pub(crate) fn write_u16_at(buf: &mut [u8; 8], idx: usize, n: u16)
    requires
        idx + 2 <= 8,
    ensures
        final(buf)@ == put_le16(old(buf)@, idx as int, n as int),
{
    LE::write_u16(&mut buf[idx..idx + 2], n)
}

/// `LittleEndian::write_u32` into the four bytes at `idx`: lowest byte first, nothing else
/// changes.
#[verifier::external_body]
pub(crate) fn write_u32_at(buf: &mut [u8; 8], idx: usize, n: u32)
    requires
        idx + 4 <= 8,
    ensures
        final(buf)@ == put_le32(old(buf)@, idx as int, n as int),
{
    LE::write_u32(&mut buf[idx..idx + 4], n)
}

/// `LittleEndian::write_i16` into the two bytes at `idx`: the 16 bit two's complement pattern of
/// `n`, low byte first.
#[verifier::external_body]
pub(crate) fn write_i16_at(buf: &mut [u8; 8], idx: usize, n: i16)
    requires
        idx + 2 <= 8,
    ensures
        final(buf)@ == put_le16(old(buf)@, idx as int, unsigned16(n as int)),
{
    LE::write_i16(&mut buf[idx..idx + 2], n)
}

/// `LittleEndian::write_i32` into the four bytes at `idx`: the 32 bit two's complement pattern
/// of `n`, lowest byte first.
#[verifier::external_body]
pub(crate) fn write_i32_at(buf: &mut [u8; 8], idx: usize, n: i32)
    requires
        idx + 4 <= 8,
    ensures
        final(buf)@ == put_le32(old(buf)@, idx as int, unsigned32(n as int)),
{
    LE::write_i32(&mut buf[idx..idx + 4], n)
}

} // verus!

verus! {

/// Reading back two bytes written little endian gives the value written.
pub proof fn lemma_le16_roundtrip(bytes: Seq<u8>, at: int, n: int)
    requires
        0 <= at,
        at + 2 <= bytes.len(),
        0 <= n < 65536,
    ensures
        le_u16_at(put_le16(bytes, at, n), at) == n,
        put_le16(bytes, at, n).len() == bytes.len(),
{
    let b = put_le16(bytes, at, n);
    assert(b[at] == n % 256);
    assert(b[at + 1] == n / 256);
}

/// Reading back four bytes written little endian gives the value written.
pub proof fn lemma_le32_roundtrip(bytes: Seq<u8>, at: int, n: int)
    requires
        0 <= at,
        at + 4 <= bytes.len(),
        0 <= n < 4294967296,
    ensures
        le_u32_at(put_le32(bytes, at, n), at) == n,
        put_le32(bytes, at, n).len() == bytes.len(),
{
    let b = put_le32(bytes, at, n);
    assert(b[at] == n % 256);
    assert(b[at + 1] == (n / 256) % 256);
    assert(b[at + 2] == (n / 65536) % 256);
    assert(0 <= n / 16777216 < 256) by (nonlinear_arith)
        requires 0 <= n < 4294967296;
    assert(b[at + 3] == n / 16777216);
    assert(n == n % 256 + 256 * ((n / 256) % 256) + 65536 * ((n / 65536) % 256) + 16777216 * (
    n / 16777216)) by (nonlinear_arith)
        requires 0 <= n;
}

/// The two's complement pattern of a 16 bit signed value reads back as that value.
pub proof fn lemma_signed16_roundtrip(n: int)
    requires
        -32768 <= n < 32768,
    ensures
        0 <= unsigned16(n) < 65536,
        signed16(unsigned16(n)) == n,
{
}

/// The two's complement pattern of a 32 bit signed value reads back as that value.
pub proof fn lemma_signed32_roundtrip(n: int)
    requires
        -2147483648 <= n < 2147483648,
    ensures
        0 <= unsigned32(n) < 4294967296,
        signed32(unsigned32(n)) == n,
{
}

} // verus!
