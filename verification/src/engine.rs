//! The traits every on-disk type of the codec implements.
//!
//! A value has a fixed *inline* footprint at its point of reference (a
//! pointer field is 8 bytes there no matter how large its pointee is), and
//! writing it may in addition place pointee payloads at the shared data
//! cursor.  The contracts here are what every implementation promises:
//! reading consumes exactly the inline footprint, and writing never moves
//! the data cursor backwards and never disturbs bytes before the write
//! position.

use crate::bytes::{
    i16_at, i32_at, i64_at, lemma_u16_le_decode, lemma_u32_le_decode, lemma_u64_le_decode,
    read_i16, read_i32, read_i64, read_u16, read_u32, read_u64, read_u8, u16_at, u16_le_bytes,
    u32_at, u32_le_bytes, u64_at, u64_le_bytes,
};
use crate::error::SsbhError;
use crate::writer::{lemma_put_bytes_effects, spec_put_bytes, Writer};
use vstd::prelude::*;

verus! {

/// The byte position of element `i` of a region of `size`-byte elements
/// that starts at `off`.
pub open spec fn elem_pos(off: u64, i: int, size: u64) -> int {
    off + i * size
}

/// A type with a fixed on-disk footprint at its point of reference.
pub trait SsbhSize: Sized {
    /// The number of bytes the value occupies where it is referenced.
    spec fn inline_size_spec() -> u64;

    /// Executable mirror of `inline_size_spec`.
    fn inline_size() -> (r: u64)
        ensures
            r == Self::inline_size_spec(),
            1 <= r,
    ;

    /// The footprint is at least one byte.
    proof fn lemma_inline_size_positive()
        ensures
            Self::inline_size_spec() >= 1,
    ;
}

/// A type that can be decoded from an absolute position of a fully buffered
/// stream.  Decoding consumes exactly the inline footprint; pointees are
/// looked up by absolute position and never consume forward stream position
/// at their point of reference.
pub trait SsbhRead: SsbhSize {
    /// Whether the bytes at `pos` of `s` decode to a value of this type:
    /// false when a read would leave the buffer, a tag names no alternative,
    /// or an offset computation overflows.
    spec fn decodable(s: Seq<u8>, pos: int) -> bool;

    /// Whether `v` is the value the bytes at `pos` of `s` decode to.
    spec fn decodes_to(s: Seq<u8>, pos: int, v: Self) -> bool;

    /// Succeeds exactly when the bytes at `pos` decode, and then returns
    /// exactly the value they decode to.  A decode can only fail with
    /// truncation, a tag that names no alternative, or an overflowing
    /// offset.
    fn read_at(bytes: &Vec<u8>, pos: u64) -> (r: Result<(Self, u64), SsbhError>)
        ensures
            match r {
                Ok((v, next)) => Self::decodable(bytes@, pos as int) && Self::decodes_to(
                    bytes@,
                    pos as int,
                    v,
                ) && next == pos + Self::inline_size_spec() && next <= bytes@.len(),
                Err(e) => !Self::decodable(bytes@, pos as int) && (e == SsbhError::Truncated || e
                    == SsbhError::MalformedMagic || e == SsbhError::OffsetOverflow),
            },
    ;
}

/// A type that can be encoded through the write-time layout engine.
///
/// `data_ptr` is the shared data cursor: the next unused byte position
/// available for pointee payloads.  Whatever the value, the cursor never
/// decreases, the buffer never shrinks, and bytes before the write position
/// are never disturbed.
pub trait SsbhWrite: Sized {
    /// The alignment the value requires when it is placed as a pointee.
    spec fn align_spec() -> u64;

    /// Executable mirror of `align_spec`.
    fn alignment() -> (r: u64)
        ensures
            r == Self::align_spec(),
            1 <= r <= 8,
    ;

    /// Nothing an in-memory encode does can fail but for a position or size
    /// that exceeds the machine's limits, or an offset its declared width:
    /// every failure is `OffsetOverflow` or `OffsetTooNarrow`.
    fn write_ssbh(&self, w: &mut Writer, data_ptr: &mut u64) -> (r: Result<(), SsbhError>)
        ensures
            *final(data_ptr) >= *old(data_ptr),
            final(w).out@.len() >= old(w).out@.len(),
            forall|i: int|
                0 <= i < old(w).pos && i < old(w).out@.len() ==> final(w).out@[i] == old(
                    w,
                ).out@[i],
            r.is_ok() ==> final(w).pos >= old(w).pos,
            match r {
                Ok(_) => true,
                Err(e) => e == SsbhError::OffsetOverflow || e == SsbhError::OffsetTooNarrow,
            },
    ;
}

impl SsbhSize for u8 {
    open spec fn inline_size_spec() -> u64 {
        1
    }

    fn inline_size() -> u64 {
        1
    }

    proof fn lemma_inline_size_positive() {
    }
}

impl SsbhRead for u8 {
    open spec fn decodable(s: Seq<u8>, pos: int) -> bool {
        0 <= pos && pos + 1 <= s.len()
    }

    open spec fn decodes_to(s: Seq<u8>, pos: int, v: u8) -> bool {
        Self::decodable(s, pos) && v == s[pos]
    }

    fn read_at(bytes: &Vec<u8>, pos: u64) -> (r: Result<(Self, u64), SsbhError>)
        ensures
            match r {
                Ok((v, next)) => v == bytes@[pos as int],
                Err(e) => pos + 1 > bytes@.len() && e == SsbhError::Truncated,
            },
    {
        let v = read_u8(bytes, pos)?;
        Ok((v, pos + 1))
    }
}

impl SsbhWrite for u8 {
    open spec fn align_spec() -> u64 {
        1
    }

    fn alignment() -> u64 {
        1
    }

    fn write_ssbh(&self, w: &mut Writer, data_ptr: &mut u64) -> (r: Result<(), SsbhError>)
        ensures
            *final(data_ptr) == *old(data_ptr),
            r.is_ok() ==> final(w).out@ == spec_put_bytes(
                old(w).out@,
                old(w).pos as int,
                seq![*self],
            ) && final(w).pos == old(w).pos + 1,
    {
        let r = w.put_u8(*self);
        proof {
            if r.is_ok() {
                lemma_put_bytes_effects(old(w).out@, old(w).pos as int, seq![*self]);
            }
        }
        r
    }
}

impl SsbhSize for u16 {
    open spec fn inline_size_spec() -> u64 {
        2
    }

    fn inline_size() -> u64 {
        2
    }

    proof fn lemma_inline_size_positive() {
    }
}

impl SsbhRead for u16 {
    open spec fn decodable(s: Seq<u8>, pos: int) -> bool {
        0 <= pos && pos + 2 <= s.len()
    }

    open spec fn decodes_to(s: Seq<u8>, pos: int, v: u16) -> bool {
        Self::decodable(s, pos) && v == u16_at(s, pos)
    }

    fn read_at(bytes: &Vec<u8>, pos: u64) -> (r: Result<(Self, u64), SsbhError>)
        ensures
            match r {
                Ok((v, next)) => v == u16_at(bytes@, pos as int),
                Err(e) => pos + 2 > bytes@.len() && e == SsbhError::Truncated,
            },
    {
        let v = read_u16(bytes, pos)?;
        Ok((v, pos + 2))
    }
}

impl SsbhWrite for u16 {
    open spec fn align_spec() -> u64 {
        2
    }

    fn alignment() -> u64 {
        2
    }

    fn write_ssbh(&self, w: &mut Writer, data_ptr: &mut u64) -> (r: Result<(), SsbhError>)
        ensures
            *final(data_ptr) == *old(data_ptr),
            r.is_ok() ==> final(w).out@ == spec_put_bytes(
                old(w).out@,
                old(w).pos as int,
                u16_le_bytes(*self),
            ) && final(w).pos == old(w).pos + 2,
    {
        let r = w.put_u16(*self);
        proof {
            if r.is_ok() {
                lemma_put_bytes_effects(old(w).out@, old(w).pos as int, u16_le_bytes(*self));
            }
        }
        r
    }
}

impl SsbhSize for u32 {
    open spec fn inline_size_spec() -> u64 {
        4
    }

    fn inline_size() -> u64 {
        4
    }

    proof fn lemma_inline_size_positive() {
    }
}

impl SsbhRead for u32 {
    open spec fn decodable(s: Seq<u8>, pos: int) -> bool {
        0 <= pos && pos + 4 <= s.len()
    }

    open spec fn decodes_to(s: Seq<u8>, pos: int, v: u32) -> bool {
        Self::decodable(s, pos) && v == u32_at(s, pos)
    }

    fn read_at(bytes: &Vec<u8>, pos: u64) -> (r: Result<(Self, u64), SsbhError>)
        ensures
            match r {
                Ok((v, next)) => v == u32_at(bytes@, pos as int),
                Err(e) => pos + 4 > bytes@.len() && e == SsbhError::Truncated,
            },
    {
        let v = read_u32(bytes, pos)?;
        Ok((v, pos + 4))
    }
}

impl SsbhWrite for u32 {
    open spec fn align_spec() -> u64 {
        4
    }

    fn alignment() -> u64 {
        4
    }

    fn write_ssbh(&self, w: &mut Writer, data_ptr: &mut u64) -> (r: Result<(), SsbhError>)
        ensures
            *final(data_ptr) == *old(data_ptr),
            r.is_ok() ==> final(w).out@ == spec_put_bytes(
                old(w).out@,
                old(w).pos as int,
                u32_le_bytes(*self),
            ) && final(w).pos == old(w).pos + 4,
    {
        let r = w.put_u32(*self);
        proof {
            if r.is_ok() {
                lemma_put_bytes_effects(old(w).out@, old(w).pos as int, u32_le_bytes(*self));
            }
        }
        r
    }
}

impl SsbhSize for u64 {
    open spec fn inline_size_spec() -> u64 {
        8
    }

    fn inline_size() -> u64 {
        8
    }

    proof fn lemma_inline_size_positive() {
    }
}

impl SsbhRead for u64 {
    open spec fn decodable(s: Seq<u8>, pos: int) -> bool {
        0 <= pos && pos + 8 <= s.len()
    }

    open spec fn decodes_to(s: Seq<u8>, pos: int, v: u64) -> bool {
        Self::decodable(s, pos) && v == u64_at(s, pos)
    }

    fn read_at(bytes: &Vec<u8>, pos: u64) -> (r: Result<(Self, u64), SsbhError>)
        ensures
            match r {
                Ok((v, next)) => v == u64_at(bytes@, pos as int),
                Err(e) => pos + 8 > bytes@.len() && e == SsbhError::Truncated,
            },
    {
        let v = read_u64(bytes, pos)?;
        Ok((v, pos + 8))
    }
}

impl SsbhWrite for u64 {
    open spec fn align_spec() -> u64 {
        8
    }

    fn alignment() -> u64 {
        8
    }

    fn write_ssbh(&self, w: &mut Writer, data_ptr: &mut u64) -> (r: Result<(), SsbhError>)
        ensures
            *final(data_ptr) == *old(data_ptr),
            r.is_ok() ==> final(w).out@ == spec_put_bytes(
                old(w).out@,
                old(w).pos as int,
                u64_le_bytes(*self),
            ) && final(w).pos == old(w).pos + 8,
    {
        let r = w.put_u64(*self);
        proof {
            if r.is_ok() {
                lemma_put_bytes_effects(old(w).out@, old(w).pos as int, u64_le_bytes(*self));
            }
        }
        r
    }
}

impl SsbhSize for i16 {
    open spec fn inline_size_spec() -> u64 {
        2
    }

    fn inline_size() -> u64 {
        2
    }

    proof fn lemma_inline_size_positive() {
    }
}

impl SsbhRead for i16 {
    open spec fn decodable(s: Seq<u8>, pos: int) -> bool {
        0 <= pos && pos + 2 <= s.len()
    }

    open spec fn decodes_to(s: Seq<u8>, pos: int, v: i16) -> bool {
        Self::decodable(s, pos) && v == i16_at(s, pos)
    }

    fn read_at(bytes: &Vec<u8>, pos: u64) -> (r: Result<(Self, u64), SsbhError>)
        ensures
            match r {
                Ok((v, next)) => v == i16_at(bytes@, pos as int),
                Err(e) => pos + 2 > bytes@.len() && e == SsbhError::Truncated,
            },
    {
        let v = read_i16(bytes, pos)?;
        Ok((v, pos + 2))
    }
}

/// The two's-complement bits that carry the signed value `v`.
pub open spec fn bits_of_i16(v: i16) -> u16 {
    if v >= 0 {
        v as u16
    } else {
        (v + 0x10000) as u16
    }
}

/// Reinterprets a signed value as its two's-complement bits; the inverse of
/// `i16_from_bits`.
pub fn i16_to_bits(v: i16) -> (r: u16)
    ensures
        r == bits_of_i16(v),
{
    if v >= 0 {
        v as u16
    } else {
        ((v as i32) + 0x10000) as u16
    }
}

impl SsbhWrite for i16 {
    open spec fn align_spec() -> u64 {
        2
    }

    fn alignment() -> u64 {
        2
    }

    fn write_ssbh(&self, w: &mut Writer, data_ptr: &mut u64) -> (r: Result<(), SsbhError>)
        ensures
            *final(data_ptr) == *old(data_ptr),
            r.is_ok() ==> final(w).out@ == spec_put_bytes(
                old(w).out@,
                old(w).pos as int,
                u16_le_bytes(bits_of_i16(*self)),
            ) && final(w).pos == old(w).pos + 2,
    {
        let bits = i16_to_bits(*self);
        let r = w.put_u16(bits);
        proof {
            if r.is_ok() {
                lemma_put_bytes_effects(old(w).out@, old(w).pos as int, u16_le_bytes(bits));
            }
        }
        r
    }
}

/// The two's-complement bits that carry the signed value `v`.
pub open spec fn bits_of_i32(v: i32) -> u32 {
    if v >= 0 {
        v as u32
    } else {
        (v + 0x1_0000_0000) as u32
    }
}

/// Reinterprets a signed value as its two's-complement bits.
pub fn i32_to_bits(v: i32) -> (r: u32)
    ensures
        r == bits_of_i32(v),
{
    if v >= 0 {
        v as u32
    } else {
        ((v as i64) + 0x1_0000_0000) as u32
    }
}

/// The two's-complement bits that carry the signed value `v`.
pub open spec fn bits_of_i64(v: i64) -> u64 {
    if v >= 0 {
        v as u64
    } else {
        (v + 0x1_0000_0000_0000_0000) as u64
    }
}

/// Reinterprets a signed value as its two's-complement bits.
pub fn i64_to_bits(v: i64) -> (r: u64)
    ensures
        r == bits_of_i64(v),
{
    if v >= 0 {
        v as u64
    } else {
        ((v as i128) + 0x1_0000_0000_0000_0000) as u64
    }
}

impl SsbhSize for i32 {
    open spec fn inline_size_spec() -> u64 {
        4
    }

    fn inline_size() -> u64 {
        4
    }

    proof fn lemma_inline_size_positive() {
    }
}

impl SsbhRead for i32 {
    open spec fn decodable(s: Seq<u8>, pos: int) -> bool {
        0 <= pos && pos + 4 <= s.len()
    }

    open spec fn decodes_to(s: Seq<u8>, pos: int, v: i32) -> bool {
        Self::decodable(s, pos) && v == i32_at(s, pos)
    }

    fn read_at(bytes: &Vec<u8>, pos: u64) -> (r: Result<(Self, u64), SsbhError>)
        ensures
            match r {
                Ok((v, next)) => v == i32_at(bytes@, pos as int),
                Err(e) => pos + 4 > bytes@.len() && e == SsbhError::Truncated,
            },
    {
        let v = read_i32(bytes, pos)?;
        Ok((v, pos + 4))
    }
}

impl SsbhWrite for i32 {
    open spec fn align_spec() -> u64 {
        4
    }

    fn alignment() -> u64 {
        4
    }

    fn write_ssbh(&self, w: &mut Writer, data_ptr: &mut u64) -> (r: Result<(), SsbhError>)
        ensures
            *final(data_ptr) == *old(data_ptr),
            r.is_ok() ==> final(w).out@ == spec_put_bytes(
                old(w).out@,
                old(w).pos as int,
                u32_le_bytes(bits_of_i32(*self)),
            ) && final(w).pos == old(w).pos + 4,
    {
        let bits = i32_to_bits(*self);
        bits.write_ssbh(w, data_ptr)
    }
}

impl SsbhSize for i64 {
    open spec fn inline_size_spec() -> u64 {
        8
    }

    fn inline_size() -> u64 {
        8
    }

    proof fn lemma_inline_size_positive() {
    }
}

impl SsbhRead for i64 {
    open spec fn decodable(s: Seq<u8>, pos: int) -> bool {
        0 <= pos && pos + 8 <= s.len()
    }

    open spec fn decodes_to(s: Seq<u8>, pos: int, v: i64) -> bool {
        Self::decodable(s, pos) && v == i64_at(s, pos)
    }

    fn read_at(bytes: &Vec<u8>, pos: u64) -> (r: Result<(Self, u64), SsbhError>)
        ensures
            match r {
                Ok((v, next)) => v == i64_at(bytes@, pos as int),
                Err(e) => pos + 8 > bytes@.len() && e == SsbhError::Truncated,
            },
    {
        let v = read_i64(bytes, pos)?;
        Ok((v, pos + 8))
    }
}

impl SsbhWrite for i64 {
    open spec fn align_spec() -> u64 {
        8
    }

    fn alignment() -> u64 {
        8
    }

    fn write_ssbh(&self, w: &mut Writer, data_ptr: &mut u64) -> (r: Result<(), SsbhError>)
        ensures
            *final(data_ptr) == *old(data_ptr),
            r.is_ok() ==> final(w).out@ == spec_put_bytes(
                old(w).out@,
                old(w).pos as int,
                u64_le_bytes(bits_of_i64(*self)),
            ) && final(w).pos == old(w).pos + 8,
    {
        let bits = i64_to_bits(*self);
        bits.write_ssbh(w, data_ptr)
    }
}

impl<T: SsbhWrite> SsbhWrite for Vec<T> {
    open spec fn align_spec() -> u64 {
        T::align_spec()
    }

    fn alignment() -> u64 {
        T::alignment()
    }

    /// Elements are written one after the other; each element places its own
    /// pointees at the shared data cursor.
    fn write_ssbh(&self, w: &mut Writer, data_ptr: &mut u64) -> (r: Result<(), SsbhError>) {
        let n = self.len();
        let mut k: usize = 0;
        while k < n
            invariant
                n == self@.len(),
                k <= n,
                *data_ptr >= *old(data_ptr),
                w.out@.len() >= old(w).out@.len(),
                forall|i: int|
                    0 <= i < old(w).pos && i < old(w).out@.len() ==> w.out@[i] == old(w).out@[i],
                w.pos >= old(w).pos,
            decreases n - k,
        {
            self[k].write_ssbh(w, data_ptr)?;
            k = k + 1;
        }
        Ok(())
    }
}

} // verus!
