//! Little-endian packing of register pairs: two bytes combine into one
//! 16-bit value with the low byte first, and split back the same way.

use vstd::prelude::*;

verus! {

/// Relies on byteorder::LittleEndian::read_u16: the first byte of the
/// buffer is the low byte of the result, the second the high byte.
#[verifier::external_body]
pub(crate) fn combine_u16_le(lo: u8, hi: u8) -> (r: u16)
    ensures
        r as int == lo + 256 * hi,
{
    <byteorder::LittleEndian as byteorder::ByteOrder>::read_u16(&[lo, hi])
}

/// Relies on byteorder::LittleEndian::write_u16: the low byte of the value
/// goes into the first byte of the buffer, the high byte into the second.
#[verifier::external_body]
pub(crate) fn split_u16_le(v: u16) -> (r: (u8, u8))
    ensures
        r.0 as int == v as int % 256,
        r.1 as int == v as int / 256,
{
    let mut buf = [0u8; 2];
    <byteorder::LittleEndian as byteorder::ByteOrder>::write_u16(&mut buf, v);
    (buf[0], buf[1])
}

} // verus!
