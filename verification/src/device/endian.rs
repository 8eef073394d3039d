//! Little-endian integers, as the device lays them out in a report.
//!
//! The conversions themselves are done by the `byteorder` crate; this module
//! says in arithmetic what they compute.

use byteorder::ByteOrder;
use byteorder::LittleEndian;
use vstd::prelude::*;

verus! {

/// The number whose little-endian bytes are the first four bytes of `bytes`.
pub open spec fn le_u32(bytes: Seq<u8>) -> int {
    bytes[0] + 256 * bytes[1] + 65536 * bytes[2] + 16777216 * bytes[3]
}

/// The four little-endian bytes of `n`.
pub open spec fn le_bytes_u32(n: u32) -> Seq<u8> {
    seq![
        (n % 256) as u8,
        ((n / 256) % 256) as u8,
        ((n / 65536) % 256) as u8,
        (n / 16777216) as u8,
    ]
}

/// The two little-endian bytes of `n`.
pub open spec fn le_bytes_u16(n: u16) -> Seq<u8> {
    seq![(n % 256) as u8, (n / 256) as u8]
}

/// The signed number whose little-endian two's complement bytes are the
/// first two bytes of `bytes`.
pub open spec fn le_i16(bytes: Seq<u8>) -> int {
    let unsigned = bytes[0] + 256 * bytes[1];
    if unsigned < 32768 {
        unsigned
    } else {
        unsigned - 65536
    }
}

/// Reading back what was written gives the number that was written.
pub proof fn lemma_le_u32_round_trip(n: u32)
    ensures
        le_bytes_u32(n).len() == 4,
        le_u32(le_bytes_u32(n)) == n,
{
}

/// `byteorder::LittleEndian::read_u32`: the first four bytes of the buffer,
/// read as a little-endian number. The call panics on a shorter buffer.
#[verifier::external_body]
pub(crate) fn read_u32(buf: &[u8]) -> (n: u32)
    requires
        buf@.len() >= 4,
    ensures
        n == le_u32(buf@),
{
    LittleEndian::read_u32(buf)
}

/// `byteorder::LittleEndian::write_u32`: the first four bytes of the buffer
/// become the little-endian bytes of `n`, the rest stays as it was. The call
/// panics on a shorter buffer.
#[verifier::external_body]
pub(crate) fn write_u32(buf: &mut [u8], n: u32)
    requires
        old(buf)@.len() >= 4,
    ensures
        final(buf)@ == le_bytes_u32(n) + old(buf)@.subrange(4, old(buf)@.len() as int),
{
    LittleEndian::write_u32(buf, n)
}

/// `byteorder::LittleEndian::write_u16`: the first two bytes of the buffer
/// become the little-endian bytes of `n`, the rest stays as it was. The call
/// panics on a shorter buffer.
#[verifier::external_body]
pub(crate) fn write_u16(buf: &mut [u8], n: u16)
    requires
        old(buf)@.len() >= 2,
    ensures
        final(buf)@ == le_bytes_u16(n) + old(buf)@.subrange(2, old(buf)@.len() as int),
{
    LittleEndian::write_u16(buf, n)
}

/// `byteorder::LittleEndian::read_i16`: the first two bytes of the buffer,
/// read as a little-endian number in two's complement. The call panics on a
/// shorter buffer.
#[verifier::external_body]
pub(crate) fn read_i16(buf: &[u8]) -> (n: i16)
    requires
        buf@.len() >= 2,
    ensures
        n == le_i16(buf@),
{
    LittleEndian::read_i16(buf)
}

} // verus!
