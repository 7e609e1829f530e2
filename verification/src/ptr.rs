//! The offset/pointer engine.
//!
//! Two pointer flavors connect the records of a file: `Ptr`, an absolute
//! offset measured from the start of the whole stream whose on-disk width is
//! 8, 16, 32 or 64 bits, and `RelPtr64`, a 64-bit offset measured from the
//! byte position of the offset field itself.  A zero offset field encodes an
//! absent pointee for both flavors.
//!
//! Reading dereferences transparently: the pointee is decoded at its target
//! position and the stream cursor continues right after the offset field.
//! Writing relocates transparently: the pointee is placed at the shared data
//! cursor, aligned for its type, and the offset field is patched to point
//! there.

use crate::bytes::{
    lemma_u16_le_decode, lemma_u32_le_decode, lemma_u64_at_eq, lemma_u64_le_decode, read_u16,
    read_u32, read_u64, read_u8, u16_at, u16_le_bytes, u32_at, u32_le_bytes, u64_at, u64_le_bytes,
};
use crate::engine::{SsbhRead, SsbhSize, SsbhWrite};
use crate::error::SsbhError;
use crate::layout::{checked_round_up, spec_round_up};
use crate::writer::{lemma_put_bytes_effects, lemma_u64_at_put, spec_put_bytes, Writer};
use vstd::math::max;
use vstd::prelude::*;

verus! {

/// The on-disk width of an absolute pointer's offset field.
#[derive(Clone, Copy, Debug, PartialEq, Eq, Structural)]
pub enum PtrWidth {
    W8,
    W16,
    W32,
    W64,
}

impl PtrWidth {
    /// The footprint of the offset field in bytes.
    pub open spec fn bytes_spec(self) -> u64 {
        match self {
            PtrWidth::W8 => 1,
            PtrWidth::W16 => 2,
            PtrWidth::W32 => 4,
            PtrWidth::W64 => 8,
        }
    }

    /// Executable mirror of `bytes_spec`.
    pub fn bytes(&self) -> (r: u64)
        ensures
            r == self.bytes_spec(),
    {
        match self {
            PtrWidth::W8 => 1,
            PtrWidth::W16 => 2,
            PtrWidth::W32 => 4,
            PtrWidth::W64 => 8,
        }
    }

    /// The largest offset the field can carry.
    pub open spec fn max_value_spec(self) -> u64 {
        match self {
            PtrWidth::W8 => 0xff,
            PtrWidth::W16 => 0xffff,
            PtrWidth::W32 => 0xffff_ffff,
            PtrWidth::W64 => u64::MAX,
        }
    }

    /// Executable mirror of `max_value_spec`.
    pub fn max_value(&self) -> (r: u64)
        ensures
            r == self.max_value_spec(),
    {
        match self {
            PtrWidth::W8 => 0xff,
            PtrWidth::W16 => 0xffff,
            PtrWidth::W32 => 0xffff_ffff,
            PtrWidth::W64 => u64::MAX,
        }
    }
}

/// The unsigned value stored little-endian at `pos` of `s` in the given
/// width, widened to 64 bits.
pub open spec fn uint_at(s: Seq<u8>, pos: int, width: PtrWidth) -> u64 {
    match width {
        PtrWidth::W8 => s[pos] as u64,
        PtrWidth::W16 => u16_at(s, pos) as u64,
        PtrWidth::W32 => u32_at(s, pos) as u64,
        PtrWidth::W64 => u64_at(s, pos),
    }
}

/// The little-endian encoding of `v` in the given width.
pub open spec fn uint_le_bytes(v: u64, width: PtrWidth) -> Seq<u8>
    recommends
        v <= width.max_value_spec(),
{
    match width {
        PtrWidth::W8 => seq![v as u8],
        PtrWidth::W16 => u16_le_bytes(v as u16),
        PtrWidth::W32 => u32_le_bytes(v as u32),
        PtrWidth::W64 => u64_le_bytes(v),
    }
}

/// Null-pointer identity, encode side: the offset field an absent pointer
/// writes is all zero bytes of the pointer's width.  `write_abs_ptr` and the
/// `RelPtr64` writer produce exactly `uint_le_bytes(0, width)` for an absent
/// pointee.
pub proof fn lemma_null_field_all_zero(width: PtrWidth)
    ensures
        uint_le_bytes(0, width).len() == width.bytes_spec(),
        forall|i: int|
            0 <= i < uint_le_bytes(0, width).len() ==> uint_le_bytes(0, width)[i] == 0u8,
{
    match width {
        PtrWidth::W8 => {
            assert(uint_le_bytes(0, width) =~= seq![0u8]);
        },
        PtrWidth::W16 => {
            assert(uint_le_bytes(0, width) =~= seq![0u8, 0u8]);
        },
        PtrWidth::W32 => {
            assert(uint_le_bytes(0, width) =~= seq![0u8, 0u8, 0u8, 0u8]);
        },
        PtrWidth::W64 => {
            assert(uint_le_bytes(0, width) =~= seq![0u8, 0u8, 0u8, 0u8, 0u8, 0u8, 0u8, 0u8]);
        },
    }
}

/// Null-pointer identity, decode side: an all-zero offset field decodes to
/// the zero sentinel, for every supported width, and the pointer readers
/// return the absent value exactly when the field decodes to zero.
pub proof fn lemma_null_field_decodes_absent(s: Seq<u8>, pos: int, width: PtrWidth)
    requires
        0 <= pos,
        pos + width.bytes_spec() <= s.len(),
        forall|i: int| pos <= i < pos + width.bytes_spec() ==> s[i] == 0u8,
    ensures
        uint_at(s, pos, width) == 0,
{
}

/// Reads a width-sized unsigned offset field at `pos`.
pub fn read_uint(bytes: &Vec<u8>, pos: u64, width: PtrWidth) -> (r: Result<u64, SsbhError>)
    ensures
        bytes@.len() <= usize::MAX,
        match r {
            Ok(v) => pos + width.bytes_spec() <= bytes@.len() && v == uint_at(
                bytes@,
                pos as int,
                width,
            ),
            Err(e) => pos + width.bytes_spec() > bytes@.len() && e == SsbhError::Truncated,
        },
{
    match width {
        PtrWidth::W8 => {
            let v = read_u8(bytes, pos)?;
            Ok(v as u64)
        },
        PtrWidth::W16 => {
            let v = read_u16(bytes, pos)?;
            Ok(v as u64)
        },
        PtrWidth::W32 => {
            let v = read_u32(bytes, pos)?;
            Ok(v as u64)
        },
        PtrWidth::W64 => {
            let v = read_u64(bytes, pos)?;
            Ok(v)
        },
    }
}

/// Writes `v` as a width-sized offset field at the current position.
fn put_uint(w: &mut Writer, v: u64, width: PtrWidth) -> (r: Result<(), SsbhError>)
    requires
        v <= width.max_value_spec(),
    ensures
        match r {
            Ok(()) => old(w).pos + width.bytes_spec() <= usize::MAX && final(w).out@
                == spec_put_bytes(old(w).out@, old(w).pos as int, uint_le_bytes(v, width))
                && final(w).pos == old(w).pos + width.bytes_spec(),
            Err(e) => old(w).pos + width.bytes_spec() > usize::MAX && e
                == SsbhError::OffsetOverflow && *final(w) == *old(w),
        },
{
    match width {
        PtrWidth::W8 => w.put_u8(v as u8),
        PtrWidth::W16 => w.put_u16(v as u16),
        PtrWidth::W32 => w.put_u32(v as u32),
        PtrWidth::W64 => w.put_u64(v),
    }
}

/// Reads the 64-bit relative offset field at `pos` and resolves it against
/// the field's own position.
///
/// The result is `None` for the zero sentinel, the absolute target position
/// otherwise.  An offset whose sum with `pos` overflows 64 bits is the
/// recoverable `OffsetOverflow` failure, never a crash; the next field
/// still begins at `pos + 8`.
pub fn read_rel_offset(bytes: &Vec<u8>, pos: u64) -> (r: Result<Option<u64>, SsbhError>)
    ensures
        bytes@.len() <= usize::MAX,
        match r {
            Ok(t) => pos + 8 <= bytes@.len() && match t {
                Some(target) => u64_at(bytes@, pos as int) != 0 && target == pos + u64_at(
                    bytes@,
                    pos as int,
                ),
                None => u64_at(bytes@, pos as int) == 0,
            },
            Err(e) => (e == SsbhError::Truncated && pos + 8 > bytes@.len()) || (e
                == SsbhError::OffsetOverflow && pos + 8 <= bytes@.len() && u64_at(
                bytes@,
                pos as int,
            ) != 0 && pos + u64_at(bytes@, pos as int) > u64::MAX),
        },
{
    let offset = read_u64(bytes, pos)?;
    if offset == 0 {
        return Ok(None);
    }
    if offset > u64::MAX - pos {
        return Err(SsbhError::OffsetOverflow);
    }
    Ok(Some(pos + offset))
}

/// A pointer holding an offset measured from the start of the stream.
///
/// The in-memory value owns its pointee; the offset field's width is chosen
/// where the pointer is read or written.
#[derive(Debug, PartialEq, Eq, Clone)]
pub struct Ptr<T>(pub Option<T>);

impl<T> Ptr<T> {
    /// Creates an absolute offset for a value that is not null.
    pub fn new(value: T) -> (r: Self)
        ensures
            r.0 == Some(value),
    {
        Ptr(Some(value))
    }

    /// Creates an absolute offset for a null value.
    pub fn null() -> (r: Self)
        ensures
            r.0 is None,
    {
        Ptr(None)
    }
}

/// A pointer holding a 64-bit offset measured from the position of the
/// offset field itself.
#[derive(Debug, PartialEq, Eq, Clone)]
pub struct RelPtr64<T>(pub Option<T>);

impl<T> RelPtr64<T> {
    /// Creates a relative offset for `value` that is not null.
    pub fn new(value: T) -> (r: Self)
        ensures
            r.0 == Some(value),
    {
        RelPtr64(Some(value))
    }

    /// Creates a relative offset for a null value.
    pub fn null() -> (r: Self)
        ensures
            r.0 is None,
    {
        RelPtr64(None)
    }
}

impl<T: SsbhSize> SsbhSize for RelPtr64<T> {
    open spec fn inline_size_spec() -> u64 {
        8
    }

    fn inline_size() -> u64 {
        8
    }

    proof fn lemma_inline_size_positive() {
    }
}

impl<T: SsbhRead> SsbhRead for RelPtr64<T> {
    /// The field decodes when it lies inside the buffer and is either the
    /// zero sentinel or a resolvable offset whose target decodes.
    open spec fn decodable(s: Seq<u8>, pos: int) -> bool {
        &&& 0 <= pos
        &&& pos + 8 <= s.len()
        &&& (u64_at(s, pos) == 0 || (pos + u64_at(s, pos) <= u64::MAX && T::decodable(
            s,
            pos + u64_at(s, pos),
        )))
    }

    open spec fn decodes_to(s: Seq<u8>, pos: int, v: Self) -> bool {
        &&& 0 <= pos
        &&& pos + 8 <= s.len()
        &&& if u64_at(s, pos) == 0 {
            v.0 is None
        } else {
            &&& pos + u64_at(s, pos) <= u64::MAX
            &&& v.0 is Some
            &&& T::decodes_to(s, pos + u64_at(s, pos), v.0->0)
        }
    }

    /// Decodes the offset field at `pos`; a zero field is an absent value,
    /// any other field is dereferenced at `pos + offset`.  The stream
    /// position continues at `pos + 8` in every successful case; in
    /// particular, an offset whose sum with `pos` overflows leaves the next
    /// field readable at `pos + 8`.
    fn read_at(bytes: &Vec<u8>, pos: u64) -> (r: Result<(Self, u64), SsbhError>)
        ensures
            match r {
                Ok((v, next)) => pos + 8 <= bytes@.len() && (v.0 is None <==> u64_at(
                    bytes@,
                    pos as int,
                ) == 0),
                Err(_) => true,
            },
            pos + 8 > bytes@.len() ==> r == Err::<(Self, u64), SsbhError>(SsbhError::Truncated),
            pos + 8 <= bytes@.len() && u64_at(bytes@, pos as int) != 0 && pos + u64_at(
                bytes@,
                pos as int,
            ) > u64::MAX ==> r == Err::<(Self, u64), SsbhError>(SsbhError::OffsetOverflow),
    {
        let target = read_rel_offset(bytes, pos)?;
        match target {
            None => Ok((RelPtr64(None), pos + 8)),
            Some(t) => {
                let (value, _end) = T::read_at(bytes, t)?;
                Ok((RelPtr64(Some(value)), pos + 8))
            },
        }
    }
}

impl<T: SsbhWrite> SsbhWrite for RelPtr64<T> {
    open spec fn align_spec() -> u64 {
        8
    }

    fn alignment() -> u64 {
        8
    }

    /// Writes the offset field at the current position and, for a present
    /// pointee, places the pointee at the shared data cursor rounded up to
    /// the pointee's alignment; the cursor is first reserved past the field
    /// itself so the pointee can never overlap it.
    fn write_ssbh(&self, w: &mut Writer, data_ptr: &mut u64) -> (r: Result<(), SsbhError>)
        ensures
            self.0 is None && old(w).pos + 8 <= usize::MAX ==> r.is_ok(),
            r.is_ok() ==> final(w).pos == old(w).pos + 8,
            r.is_ok() && self.0 is None ==> final(w).out@ == spec_put_bytes(
                old(w).out@,
                old(w).pos as int,
                u64_le_bytes(0),
            ) && *final(data_ptr) == max(*old(data_ptr) as int, old(w).pos + 8),
            r.is_ok() && self.0 is Some ==> {
                let placement = spec_round_up(
                    max(*old(data_ptr) as int, old(w).pos + 8),
                    T::align_spec() as int,
                );
                &&& placement % (T::align_spec() as int) == 0
                &&& old(w).pos + 8 <= placement
                &&& old(w).pos + 8 <= final(w).out@.len()
                &&& u64_at(final(w).out@, old(w).pos as int) == placement - old(w).pos
                &&& *final(data_ptr) >= placement
            },
    {
        let pos = w.position();
        if pos > u64::MAX - 8 {
            return Err(SsbhError::OffsetOverflow);
        }
        let floor = pos + 8;
        if *data_ptr < floor {
            *data_ptr = floor;
        }
        match &self.0 {
            None => {
                w.put_u64(0)?;
                Ok(())
            },
            Some(value) => {
                let align = T::alignment();
                let placement = checked_round_up(*data_ptr, align)?;
                *data_ptr = placement;
                let offset = placement - pos;
                w.put_u64(offset)?;
                let ghost out1 = w.out@;
                proof {
                    lemma_u64_at_put(old(w).out@, pos as int, offset);
                }
                let resume = w.pos;
                w.seek(placement)?;
                value.write_ssbh(w, data_ptr)?;
                // Point the data cursor past the pointee; pointees with
                // their own relative offsets have already advanced it.
                let cur = w.position();
                if cur > *data_ptr {
                    *data_ptr = checked_round_up(cur, align)?;
                }
                w.seek_usize(resume);
                proof {
                    lemma_u64_at_eq(out1, w.out@, pos as int);
                }
                Ok(())
            },
        }
    }
}

/// Whether the absolute pointer field of the given width at `pos` decodes:
/// it lies inside the buffer and is either the zero sentinel or an absolute
/// position whose target decodes.
pub open spec fn abs_ptr_decodable<T: SsbhRead>(s: Seq<u8>, pos: int, width: PtrWidth) -> bool {
    &&& 0 <= pos
    &&& pos + width.bytes_spec() <= s.len()
    &&& (uint_at(s, pos, width) == 0 || T::decodable(s, uint_at(s, pos, width) as int))
}

/// Whether `v` is the pointer the field of the given width at `pos` decodes
/// to.
pub open spec fn abs_ptr_decodes_to<T: SsbhRead>(
    s: Seq<u8>,
    pos: int,
    width: PtrWidth,
    v: Ptr<T>,
) -> bool {
    &&& 0 <= pos
    &&& pos + width.bytes_spec() <= s.len()
    &&& if uint_at(s, pos, width) == 0 {
        v.0 is None
    } else {
        v.0 is Some && T::decodes_to(s, uint_at(s, pos, width) as int, v.0->0)
    }
}

/// Reads an absolute pointer whose offset field of the given width sits at
/// `pos`: a zero field is an absent value, any other field is dereferenced
/// at that absolute position.  Succeeds exactly when the field and its
/// target decode, and the stream position continues right after the offset
/// field.
pub fn read_abs_ptr<T: SsbhRead>(bytes: &Vec<u8>, pos: u64, width: PtrWidth) -> (r: Result<
    (Ptr<T>, u64),
    SsbhError,
>)
    ensures
        match r {
            Ok((v, next)) => {
                &&& abs_ptr_decodable::<T>(bytes@, pos as int, width)
                &&& abs_ptr_decodes_to::<T>(bytes@, pos as int, width, v)
                &&& next == pos + width.bytes_spec()
                &&& next <= bytes@.len()
                &&& (v.0 is None <==> uint_at(bytes@, pos as int, width) == 0)
            },
            Err(e) => !abs_ptr_decodable::<T>(bytes@, pos as int, width) && (e
                == SsbhError::Truncated || e == SsbhError::MalformedMagic || e
                == SsbhError::OffsetOverflow),
        },
        pos + width.bytes_spec() > bytes@.len() ==> r == Err::<(Ptr<T>, u64), SsbhError>(
            SsbhError::Truncated,
        ),
{
    let off = read_uint(bytes, pos, width)?;
    if off == 0 {
        return Ok((Ptr(None), pos + width.bytes()));
    }
    let (value, _end) = T::read_at(bytes, off)?;
    Ok((Ptr(Some(value)), pos + width.bytes()))
}

/// Writes an absolute pointer with an offset field of the given width at
/// the current position.  An absent pointee is the all-zero field; a present
/// pointee is placed at the shared data cursor rounded up to its alignment,
/// and an offset that cannot be represented in the chosen width is the
/// recoverable `OffsetTooNarrow` failure.
pub fn write_abs_ptr<T: SsbhWrite>(
    ptr: &Ptr<T>,
    width: PtrWidth,
    w: &mut Writer,
    data_ptr: &mut u64,
) -> (r: Result<(), SsbhError>)
    ensures
        *final(data_ptr) >= *old(data_ptr),
        final(w).out@.len() >= old(w).out@.len(),
        forall|i: int|
            0 <= i < old(w).pos && i < old(w).out@.len() ==> final(w).out@[i] == old(w).out@[i],
        match r {
            Ok(_) => true,
            Err(e) => e == SsbhError::OffsetOverflow || e == SsbhError::OffsetTooNarrow,
        },
        ptr.0 is None && old(w).pos + width.bytes_spec() <= usize::MAX ==> r.is_ok(),
        ptr.0 is Some && old(w).pos + width.bytes_spec() <= usize::MAX && max(
            *old(data_ptr) as int,
            old(w).pos + width.bytes_spec(),
        ) + T::align_spec() - 1 <= u64::MAX && spec_round_up(
            max(*old(data_ptr) as int, old(w).pos + width.bytes_spec()),
            T::align_spec() as int,
        ) > width.max_value_spec() ==> r == Err::<(), SsbhError>(SsbhError::OffsetTooNarrow),
        r.is_ok() ==> final(w).pos == old(w).pos + width.bytes_spec(),
        r.is_ok() && ptr.0 is None ==> final(w).out@ == spec_put_bytes(
            old(w).out@,
            old(w).pos as int,
            uint_le_bytes(0, width),
        ) && *final(data_ptr) == max(*old(data_ptr) as int, old(w).pos + width.bytes_spec()),
        r.is_ok() && ptr.0 is Some ==> {
            let placement = spec_round_up(
                max(*old(data_ptr) as int, old(w).pos + width.bytes_spec()),
                T::align_spec() as int,
            );
            &&& placement % (T::align_spec() as int) == 0
            &&& placement <= width.max_value_spec()
            &&& uint_at(final(w).out@, old(w).pos as int, width) == placement
            &&& *final(data_ptr) >= placement
        },
{
    let pos = w.position();
    let wbytes = width.bytes();
    if pos > u64::MAX - wbytes {
        return Err(SsbhError::OffsetOverflow);
    }
    let floor = pos + wbytes;
    if *data_ptr < floor {
        *data_ptr = floor;
    }
    match &ptr.0 {
        None => {
            put_uint(w, 0, width)?;
            Ok(())
        },
        Some(value) => {
            let align = T::alignment();
            let placement = checked_round_up(*data_ptr, align)?;
            *data_ptr = placement;
            if placement > width.max_value() {
                return Err(SsbhError::OffsetTooNarrow);
            }
            put_uint(w, placement, width)?;
            let ghost out1 = w.out@;
            proof {
                lemma_uint_at_put(old(w).out@, pos as int, placement, width);
            }
            let resume = w.pos;
            w.seek(placement)?;
            value.write_ssbh(w, data_ptr)?;
            // Point the data cursor past the pointee; pointees with their
            // own relative offsets have already advanced it.
            let cur = w.position();
            if cur > *data_ptr {
                *data_ptr = checked_round_up(cur, align)?;
            }
            w.seek_usize(resume);
            proof {
                lemma_uint_at_eq(out1, w.out@, pos as int, width);
            }
            Ok(())
        },
    }
}

/// Two buffers that agree on the offset field at `pos` decode the same
/// value there.
pub proof fn lemma_uint_at_eq(a: Seq<u8>, b: Seq<u8>, pos: int, width: PtrWidth)
    requires
        0 <= pos,
        pos + width.bytes_spec() <= a.len(),
        pos + width.bytes_spec() <= b.len(),
        forall|i: int| pos <= i < pos + width.bytes_spec() ==> a[i] == b[i],
    ensures
        uint_at(a, pos, width) == uint_at(b, pos, width),
{
    match width {
        PtrWidth::W8 => {
        },
        PtrWidth::W16 => {
            assert(a.subrange(pos, pos + 2) =~= b.subrange(pos, pos + 2));
        },
        PtrWidth::W32 => {
            assert(a.subrange(pos, pos + 4) =~= b.subrange(pos, pos + 4));
        },
        PtrWidth::W64 => {
            assert(a.subrange(pos, pos + 8) =~= b.subrange(pos, pos + 8));
        },
    }
}

/// Writing an offset field leaves a field that decodes back to the value
/// written, for every supported width.
pub proof fn lemma_uint_at_put(out: Seq<u8>, pos: int, v: u64, width: PtrWidth)
    requires
        pos >= 0,
        v <= width.max_value_spec(),
    ensures
        spec_put_bytes(out, pos, uint_le_bytes(v, width)).len() >= pos + width.bytes_spec(),
        uint_at(spec_put_bytes(out, pos, uint_le_bytes(v, width)), pos, width) == v,
{
    lemma_put_bytes_effects(out, pos, uint_le_bytes(v, width));
    match width {
        PtrWidth::W8 => {
        },
        PtrWidth::W16 => {
            lemma_u16_le_decode(v as u16);
        },
        PtrWidth::W32 => {
            lemma_u32_le_decode(v as u32);
        },
        PtrWidth::W64 => {
            lemma_u64_le_decode(v);
        },
    }
}

} // verus!
