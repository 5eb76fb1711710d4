//! Little-endian integers, read out of byte slices by `byteorder`.

use byteorder::{ByteOrder, LittleEndian};
use vstd::prelude::*;

verus! {

/// The unsigned 16-bit value whose least significant byte is `s[at]`.
pub open spec fn u16_le(s: Seq<u8>, at: int) -> int {
    s[at] as int + 0x100 * (s[at + 1] as int)
}

/// The two's-complement reading of the same two bytes.
pub open spec fn i16_le(s: Seq<u8>, at: int) -> int {
    if u16_le(s, at) < 0x8000 {
        u16_le(s, at)
    } else {
        u16_le(s, at) - 0x1_0000
    }
}

/// The unsigned 32-bit value whose least significant byte is `s[at]`.
pub open spec fn u32_le(s: Seq<u8>, at: int) -> int {
    s[at] as int + 0x100 * (s[at + 1] as int) + 0x1_0000 * (s[at + 2] as int) + 0x100_0000 * (s[at
        + 3] as int)
}

/// `byteorder::ByteOrder::read_u16` of `LittleEndian`.
///
/// Trusted: the result is the first two bytes of `buf` read least
/// significant first. The crate panics on a shorter slice, which the
/// precondition rules out.
#[verifier::external_body]
pub(crate) fn read_u16(buf: &[u8]) -> (v: u16)
    requires
        buf@.len() >= 2,
    ensures
        v as int == u16_le(buf@, 0),
{
    LittleEndian::read_u16(buf)
}

/// `byteorder::ByteOrder::read_i16` of `LittleEndian`.
///
/// Trusted: the result is the first two bytes of `buf` read least
/// significant first and taken as a two's-complement number. The crate
/// panics on a shorter slice, which the precondition rules out.
#[verifier::external_body]
pub(crate) fn read_i16(buf: &[u8]) -> (v: i16)
    requires
        buf@.len() >= 2,
    ensures
        v as int == i16_le(buf@, 0),
{
    LittleEndian::read_i16(buf)
}

/// `byteorder::ByteOrder::read_u32` of `LittleEndian`.
///
/// Trusted: the result is the first four bytes of `buf` read least
/// significant first. The crate panics on a shorter slice, which the
/// precondition rules out.
#[verifier::external_body]
pub(crate) fn read_u32(buf: &[u8]) -> (v: u32)
    requires
        buf@.len() >= 4,
    ensures
        v as int == u32_le(buf@, 0),
{
    LittleEndian::read_u32(buf)
}

/// The two bytes that hold `v`, least significant first. Meant for
/// `0 <= v < 0x1_0000`.
pub open spec fn u16_bytes(v: int) -> Seq<u8> {
    seq![(v % 0x100) as u8, (v / 0x100 % 0x100) as u8]
}

/// The two bytes that hold `v` in two's complement, least significant first.
/// Meant for `-0x8000 <= v < 0x8000`.
pub open spec fn i16_bytes(v: int) -> Seq<u8> {
    if v < 0 {
        u16_bytes(v + 0x1_0000)
    } else {
        u16_bytes(v)
    }
}

/// The four bytes that hold `v`, least significant first. Meant for
/// `0 <= v < 0x1_0000_0000`.
pub open spec fn u32_bytes(v: int) -> Seq<u8> {
    seq![
        (v % 0x100) as u8,
        (v / 0x100 % 0x100) as u8,
        (v / 0x1_0000 % 0x100) as u8,
        (v / 0x100_0000 % 0x100) as u8,
    ]
}

/// Reading back the two bytes written for an unsigned value gives the value.
pub proof fn lemma_u16_bytes_read_back(v: int)
    requires
        0 <= v < 0x1_0000,
    ensures
        u16_bytes(v).len() == 2,
        u16_le(u16_bytes(v), 0) == v,
{
}

/// Reading back the two bytes written for a signed value gives the value.
pub proof fn lemma_i16_bytes_read_back(v: int)
    requires
        -0x8000 <= v < 0x8000,
    ensures
        i16_bytes(v).len() == 2,
        i16_le(i16_bytes(v), 0) == v,
{
}

/// Reading back the four bytes written for an unsigned value gives the value.
pub proof fn lemma_u32_bytes_read_back(v: int)
    requires
        0 <= v < 0x1_0000_0000,
    ensures
        u32_bytes(v).len() == 4,
        u32_le(u32_bytes(v), 0) == v,
{
}

} // verus!
