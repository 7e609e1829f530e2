//! Little-endian primitive reads over an in-memory byte buffer.
//!
//! Every decoder in the crate works on a fully buffered input: a position is
//! an absolute byte offset from the start of the stream, and a read past the
//! end of the buffer is the recoverable `Truncated` failure.  The meaning of
//! a stored integer is written out as plain arithmetic on its digits, so
//! every contract in the crate bottoms out in open definitions.

use crate::error::SsbhError;
use vstd::arithmetic::div_mod::{
    lemma_div_denominator, lemma_fundamental_div_mod, lemma_small_mod,
};
use vstd::prelude::*;

verus! {

/// The `u16` stored little-endian at byte position `pos` of `s`.
pub open spec fn u16_at(s: Seq<u8>, pos: int) -> u16 {
    (s[pos] + 256 * s[pos + 1]) as u16
}

/// The `u32` stored little-endian at byte position `pos` of `s`.
pub open spec fn u32_at(s: Seq<u8>, pos: int) -> u32 {
    (s[pos] + 256 * s[pos + 1] + 0x10000 * s[pos + 2] + 0x1000000 * s[pos + 3]) as u32
}

/// The `u64` stored little-endian at byte position `pos` of `s`.
pub open spec fn u64_at(s: Seq<u8>, pos: int) -> u64 {
    (s[pos] + 256 * s[pos + 1] + 0x10000 * s[pos + 2] + 0x1000000 * s[pos + 3] + 0x100000000 * s[pos
        + 4] + 0x10000000000 * s[pos + 5] + 0x1000000000000 * s[pos + 6] + 0x100000000000000 * s[pos
        + 7]) as u64
}

/// The two little-endian digits of `v`.
pub open spec fn u16_le_bytes(v: u16) -> Seq<u8> {
    seq![(v % 256) as u8, ((v / 256) % 256) as u8]
}

/// The four little-endian digits of `v`.
pub open spec fn u32_le_bytes(v: u32) -> Seq<u8> {
    seq![
        (v % 256) as u8,
        ((v / 256) % 256) as u8,
        ((v / 0x10000) % 256) as u8,
        ((v / 0x1000000) % 256) as u8,
    ]
}

/// The eight little-endian digits of `v`.
pub open spec fn u64_le_bytes(v: u64) -> Seq<u8> {
    seq![
        (v % 256) as u8,
        ((v / 256) % 256) as u8,
        ((v / 0x10000) % 256) as u8,
        ((v / 0x1000000) % 256) as u8,
        ((v / 0x100000000) % 256) as u8,
        ((v / 0x10000000000) % 256) as u8,
        ((v / 0x1000000000000) % 256) as u8,
        ((v / 0x100000000000000) % 256) as u8,
    ]
}

/// Decoding the two little-endian digits of a value recovers the value.
pub proof fn lemma_u16_le_decode(v: u16)
    ensures
        u16_at(u16_le_bytes(v), 0) == v,
{
    let x = v as int;
    lemma_fundamental_div_mod(x, 256);
    lemma_small_mod((x / 256) as nat, 256);
}

/// Decoding the four little-endian digits of a value recovers the value.
pub proof fn lemma_u32_le_decode(v: u32)
    ensures
        u32_at(u32_le_bytes(v), 0) == v,
{
    let x = v as int;
    lemma_fundamental_div_mod(x, 256);
    lemma_div_denominator(x, 256, 256);
    lemma_fundamental_div_mod(x / 256, 256);
    lemma_div_denominator(x, 0x10000, 256);
    lemma_fundamental_div_mod(x / 0x10000, 256);
    lemma_small_mod((x / 0x1000000) as nat, 256);
}

/// Decoding the eight little-endian digits of a value recovers the value.
pub proof fn lemma_u64_le_decode(v: u64)
    ensures
        u64_at(u64_le_bytes(v), 0) == v,
{
    let x = v as int;
    lemma_fundamental_div_mod(x, 256);
    lemma_div_denominator(x, 256, 256);
    lemma_fundamental_div_mod(x / 256, 256);
    lemma_div_denominator(x, 0x10000, 256);
    lemma_fundamental_div_mod(x / 0x10000, 256);
    lemma_div_denominator(x, 0x1000000, 256);
    lemma_fundamental_div_mod(x / 0x1000000, 256);
    lemma_div_denominator(x, 0x100000000, 256);
    lemma_fundamental_div_mod(x / 0x100000000, 256);
    lemma_div_denominator(x, 0x10000000000, 256);
    lemma_fundamental_div_mod(x / 0x10000000000, 256);
    lemma_div_denominator(x, 0x1000000000000, 256);
    lemma_fundamental_div_mod(x / 0x1000000000000, 256);
    lemma_small_mod((x / 0x100000000000000) as nat, 256);
}

/// The signed value carried by the two's-complement bits `u`.
pub open spec fn i16_of_bits(u: u16) -> i16 {
    if u < 0x8000 {
        u as i16
    } else {
        (u - 0x10000) as i16
    }
}

/// The `i16` stored little-endian at byte position `pos` of `s`.
pub open spec fn i16_at(s: Seq<u8>, pos: int) -> i16 {
    i16_of_bits(u16_at(s, pos))
}

/// The signed value carried by the two's-complement bits `u`.
pub open spec fn i32_of_bits(u: u32) -> i32 {
    if u < 0x8000_0000 {
        u as i32
    } else {
        (u - 0x1_0000_0000) as i32
    }
}

/// The `i32` stored little-endian at byte position `pos` of `s`.
pub open spec fn i32_at(s: Seq<u8>, pos: int) -> i32 {
    i32_of_bits(u32_at(s, pos))
}

/// The signed value carried by the two's-complement bits `u`.
pub open spec fn i64_of_bits(u: u64) -> i64 {
    if u < 0x8000_0000_0000_0000 {
        u as i64
    } else {
        (u - 0x1_0000_0000_0000_0000) as i64
    }
}

/// The `i64` stored little-endian at byte position `pos` of `s`.
pub open spec fn i64_at(s: Seq<u8>, pos: int) -> i64 {
    i64_of_bits(u64_at(s, pos))
}

/// Two buffers that agree on the two bytes at `pos` decode the same `u16`
/// there.
pub proof fn lemma_u16_at_eq(a: Seq<u8>, b: Seq<u8>, pos: int)
    requires
        0 <= pos,
        pos + 2 <= a.len(),
        pos + 2 <= b.len(),
        forall|i: int| pos <= i < pos + 2 ==> a[i] == b[i],
    ensures
        u16_at(a, pos) == u16_at(b, pos),
{
}

/// Two buffers that agree on the four bytes at `pos` decode the same `u32`
/// there.
pub proof fn lemma_u32_at_eq(a: Seq<u8>, b: Seq<u8>, pos: int)
    requires
        0 <= pos,
        pos + 4 <= a.len(),
        pos + 4 <= b.len(),
        forall|i: int| pos <= i < pos + 4 ==> a[i] == b[i],
    ensures
        u32_at(a, pos) == u32_at(b, pos),
{
}

/// Two buffers that agree on the eight bytes at `pos` decode the same `u64`
/// there.
pub proof fn lemma_u64_at_eq(a: Seq<u8>, b: Seq<u8>, pos: int)
    requires
        0 <= pos,
        pos + 8 <= a.len(),
        pos + 8 <= b.len(),
        forall|i: int| pos <= i < pos + 8 ==> a[i] == b[i],
    ensures
        u64_at(a, pos) == u64_at(b, pos),
{
}

/// Copies the `n` bytes of `bytes` that start at `pos`, or reports that the
/// input is truncated; succeeds exactly when they all lie inside the buffer.
pub fn read_bytes(bytes: &Vec<u8>, pos: u64, n: usize) -> (r: Result<Vec<u8>, SsbhError>)
    ensures
        bytes@.len() <= usize::MAX,
        match r {
            Ok(v) => pos + n <= bytes@.len() && v@ == bytes@.subrange(
                pos as int,
                pos as int + n as int,
            ),
            Err(e) => pos + n > bytes@.len() && e == SsbhError::Truncated,
        },
{
    if pos > bytes.len() as u64 || n as u64 > bytes.len() as u64 - pos {
        return Err(SsbhError::Truncated);
    }
    let start = pos as usize;
    let mut v: Vec<u8> = Vec::new();
    let mut i: usize = 0;
    while i < n
        invariant
            start + n <= bytes@.len(),
            start + n <= usize::MAX,
            start == pos,
            i <= n,
            v@ == bytes@.subrange(start as int, start as int + i as int),
        decreases n - i,
    {
        v.push(bytes[start + i]);
        i = i + 1;
        proof {
            assert(v@ =~= bytes@.subrange(start as int, start as int + i as int));
        }
    }
    Ok(v)
}

/// Reads the byte at `pos`; succeeds exactly when `pos` is inside the buffer.
pub fn read_u8(bytes: &Vec<u8>, pos: u64) -> (r: Result<u8, SsbhError>)
    ensures
        bytes@.len() <= usize::MAX,
        match r {
            Ok(v) => pos + 1 <= bytes@.len() && v == bytes@[pos as int],
            Err(e) => pos + 1 > bytes@.len() && e == SsbhError::Truncated,
        },
{
    if pos < bytes.len() as u64 {
        Ok(bytes[pos as usize])
    } else {
        Err(SsbhError::Truncated)
    }
}

/// Reads the little-endian `u16` at `pos`.
pub fn read_u16(bytes: &Vec<u8>, pos: u64) -> (r: Result<u16, SsbhError>)
    ensures
        bytes@.len() <= usize::MAX,
        match r {
            Ok(v) => pos + 2 <= bytes@.len() && v == u16_at(bytes@, pos as int),
            Err(e) => pos + 2 > bytes@.len() && e == SsbhError::Truncated,
        },
{
    let b = read_bytes(bytes, pos, 2)?;
    Ok((b[0] as u16) + 256 * (b[1] as u16))
}

/// Reads the little-endian `u32` at `pos`.
pub fn read_u32(bytes: &Vec<u8>, pos: u64) -> (r: Result<u32, SsbhError>)
    ensures
        bytes@.len() <= usize::MAX,
        match r {
            Ok(v) => pos + 4 <= bytes@.len() && v == u32_at(bytes@, pos as int),
            Err(e) => pos + 4 > bytes@.len() && e == SsbhError::Truncated,
        },
{
    let b = read_bytes(bytes, pos, 4)?;
    Ok(
        (b[0] as u32) + 256 * (b[1] as u32) + 0x10000 * (b[2] as u32) + 0x1000000 * (b[3] as u32),
    )
}

/// Reads the little-endian `u64` at `pos`.
pub fn read_u64(bytes: &Vec<u8>, pos: u64) -> (r: Result<u64, SsbhError>)
    ensures
        bytes@.len() <= usize::MAX,
        match r {
            Ok(v) => pos + 8 <= bytes@.len() && v == u64_at(bytes@, pos as int),
            Err(e) => pos + 8 > bytes@.len() && e == SsbhError::Truncated,
        },
{
    let b = read_bytes(bytes, pos, 8)?;
    Ok(
        (b[0] as u64) + 256 * (b[1] as u64) + 0x10000 * (b[2] as u64) + 0x1000000 * (b[3] as u64)
            + 0x100000000 * (b[4] as u64) + 0x10000000000 * (b[5] as u64) + 0x1000000000000 * (
        b[6] as u64) + 0x100000000000000 * (b[7] as u64),
    )
}

/// Reinterprets two's-complement bits as the signed value they carry.
pub fn i16_from_bits(u: u16) -> (r: i16)
    ensures
        r == i16_of_bits(u),
{
    if u < 0x8000 {
        u as i16
    } else {
        ((u as i32) - 0x10000) as i16
    }
}

/// Reads the little-endian `i16` at `pos`.
pub fn read_i16(bytes: &Vec<u8>, pos: u64) -> (r: Result<i16, SsbhError>)
    ensures
        bytes@.len() <= usize::MAX,
        match r {
            Ok(v) => pos + 2 <= bytes@.len() && v == i16_at(bytes@, pos as int),
            Err(e) => pos + 2 > bytes@.len() && e == SsbhError::Truncated,
        },
{
    let u = read_u16(bytes, pos)?;
    Ok(i16_from_bits(u))
}

/// Reinterprets two's-complement bits as the signed value they carry.
pub fn i32_from_bits(u: u32) -> (r: i32)
    ensures
        r == i32_of_bits(u),
{
    if u < 0x8000_0000 {
        u as i32
    } else {
        ((u as i64) - 0x1_0000_0000) as i32
    }
}

/// Reads the little-endian `i32` at `pos`.
pub fn read_i32(bytes: &Vec<u8>, pos: u64) -> (r: Result<i32, SsbhError>)
    ensures
        bytes@.len() <= usize::MAX,
        match r {
            Ok(v) => pos + 4 <= bytes@.len() && v == i32_at(bytes@, pos as int),
            Err(e) => pos + 4 > bytes@.len() && e == SsbhError::Truncated,
        },
{
    let u = read_u32(bytes, pos)?;
    Ok(i32_from_bits(u))
}

/// Reinterprets two's-complement bits as the signed value they carry.
pub fn i64_from_bits(u: u64) -> (r: i64)
    ensures
        r == i64_of_bits(u),
{
    if u < 0x8000_0000_0000_0000 {
        u as i64
    } else {
        ((u as i128) - 0x1_0000_0000_0000_0000) as i64
    }
}

/// Reads the little-endian `i64` at `pos`.
pub fn read_i64(bytes: &Vec<u8>, pos: u64) -> (r: Result<i64, SsbhError>)
    ensures
        bytes@.len() <= usize::MAX,
        match r {
            Ok(v) => pos + 8 <= bytes@.len() && v == i64_at(bytes@, pos as int),
            Err(e) => pos + 8 > bytes@.len() && e == SsbhError::Truncated,
        },
{
    let u = read_u64(bytes, pos)?;
    Ok(i64_from_bits(u))
}

} // verus!
