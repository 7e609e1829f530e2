//! An in-memory, seekable output buffer.
//!
//! The whole output of one encode is built here before it is handed to any
//! destination, because the layout engine seeks backwards to patch offset
//! fields after pointee payloads are written.  A write at a position past the
//! current end of the buffer first pads the gap with zero bytes, the way a
//! seekable in-memory stream behaves.

use crate::bytes::{lemma_u64_le_decode, u16_le_bytes, u32_le_bytes, u64_at, u64_le_bytes};
use crate::error::SsbhError;
use vstd::math::max;
use vstd::pervasive::VecAdditionalExecFns;
use vstd::prelude::*;

verus! {

/// The buffer that results from writing `bs` at byte position `pos` of
/// `out`: the gap up to `pos` (if any) is zero-filled, bytes under the write
/// are replaced, and all others are kept.
pub open spec fn spec_put_bytes(out: Seq<u8>, pos: int, bs: Seq<u8>) -> Seq<u8> {
    Seq::new(
        max(out.len() as int, pos + bs.len()) as nat,
        |i: int|
            if pos <= i < pos + bs.len() {
                bs[i - pos]
            } else if i < out.len() {
                out[i]
            } else {
                0u8
            },
    )
}

/// Pointwise consequences of `spec_put_bytes`: the buffer never shrinks,
/// bytes outside the written range are kept, and the written range holds
/// exactly `bs`.
pub proof fn lemma_put_bytes_effects(out: Seq<u8>, pos: int, bs: Seq<u8>)
    requires
        pos >= 0,
    ensures
        spec_put_bytes(out, pos, bs).len() >= out.len(),
        spec_put_bytes(out, pos, bs).len() >= pos + bs.len(),
        forall|i: int|
            0 <= i < pos && i < out.len() ==> spec_put_bytes(out, pos, bs)[i] == out[i],
        forall|i: int|
            pos <= i < pos + bs.len() ==> spec_put_bytes(out, pos, bs)[i] == bs[i - pos],
        forall|i: int|
            pos + bs.len() <= i < out.len() ==> spec_put_bytes(out, pos, bs)[i] == out[i],
        spec_put_bytes(out, pos, bs).subrange(pos, pos + bs.len()) == bs,
{
    assert(spec_put_bytes(out, pos, bs).subrange(pos, pos + bs.len()) =~= bs);
}

/// Writing a `u64` little-endian at `pos` leaves a field there that decodes
/// back to the value written.
pub proof fn lemma_u64_at_put(out: Seq<u8>, pos: int, v: u64)
    requires
        pos >= 0,
    ensures
        spec_put_bytes(out, pos, u64_le_bytes(v)).len() >= pos + 8,
        u64_at(spec_put_bytes(out, pos, u64_le_bytes(v)), pos) == v,
{
    lemma_u64_le_decode(v);
    lemma_put_bytes_effects(out, pos, u64_le_bytes(v));
}

/// A growable byte buffer with an explicit write position.
pub struct Writer {
    /// The bytes written so far.
    pub out: Vec<u8>,
    /// The position the next write lands at.
    pub pos: usize,
}

impl Writer {
    /// An empty buffer positioned at its start.
    pub fn new() -> (w: Writer)
        ensures
            w.out@ == Seq::<u8>::empty(),
            w.pos == 0,
    {
        Writer { out: Vec::new(), pos: 0 }
    }

    /// The current write position.
    pub fn position(&self) -> (r: u64)
        ensures
            r == self.pos,
    {
        self.pos as u64
    }

    /// Moves the write position to the absolute byte position `pos`;
    /// fails only when `pos` cannot be a buffer index on this machine.
    pub fn seek(&mut self, pos: u64) -> (r: Result<(), SsbhError>)
        ensures
            final(self).out == old(self).out,
            match r {
                Ok(()) => pos <= usize::MAX && final(self).pos == pos,
                Err(e) => pos > usize::MAX && e == SsbhError::OffsetOverflow && final(self).pos
                    == old(self).pos,
            },
    {
        if pos <= usize::MAX as u64 {
            self.pos = pos as usize;
            Ok(())
        } else {
            Err(SsbhError::OffsetOverflow)
        }
    }

    /// Moves the write position to a position known to fit.
    pub fn seek_usize(&mut self, pos: usize)
        ensures
            final(self).out == old(self).out,
            final(self).pos == pos,
    {
        self.pos = pos;
    }

    /// Hands the finished buffer out.
    pub fn into_bytes(self) -> (r: Vec<u8>)
        ensures
            r == self.out,
    {
        self.out
    }

    /// Writes `bs` at the current position, zero-filling any gap between the
    /// end of the buffer and the position, and advances the position past
    /// the written bytes.
    pub fn put_bytes(&mut self, bs: &Vec<u8>) -> (r: Result<(), SsbhError>)
        ensures
            match r {
                Ok(()) => old(self).pos + bs@.len() <= usize::MAX && final(self).out@
                    == spec_put_bytes(old(self).out@, old(self).pos as int, bs@) && final(self).pos
                    == old(self).pos + bs@.len(),
                Err(e) => old(self).pos + bs@.len() > usize::MAX && e == SsbhError::OffsetOverflow
                    && *final(self) == *old(self),
            },
    {
        let n = bs.len();
        if n > usize::MAX - self.pos {
            return Err(SsbhError::OffsetOverflow);
        }
        while self.out.len() < self.pos
            invariant
                self.pos == old(self).pos,
                self.pos + n <= usize::MAX,
                bs@.len() == n,
                self.out@.len() <= max(old(self).out@.len() as int, self.pos as int),
                self.out@.len() >= old(self).out@.len(),
                forall|i: int|
                    0 <= i < old(self).out@.len() ==> self.out@[i] == old(self).out@[i],
                forall|i: int|
                    old(self).out@.len() <= i < self.out@.len() ==> self.out@[i] == 0u8,
            decreases self.pos - self.out.len(),
        {
            self.out.push(0u8);
        }
        let ghost mid = self.out@;
        let mut j: usize = 0;
        while j < n
            invariant
                self.pos == old(self).pos,
                self.pos + n <= usize::MAX,
                bs@.len() == n,
                j <= n,
                mid.len() >= self.pos,
                self.out@.len() == max(mid.len() as int, self.pos + j),
                forall|i: int| 0 <= i < self.pos ==> self.out@[i] == mid[i],
                forall|i: int|
                    self.pos <= i < self.pos + j ==> self.out@[i] == bs@[i - self.pos],
                forall|i: int|
                    self.pos + j <= i < mid.len() ==> self.out@[i] == mid[i],
            decreases n - j,
        {
            let idx = self.pos + j;
            if idx < self.out.len() {
                self.out.set(idx, bs[j]);
            } else {
                self.out.push(bs[j]);
            }
            j = j + 1;
        }
        proof {
            let old_out = old(self).out@;
            let p = old(self).pos as int;
            let target = spec_put_bytes(old_out, p, bs@);
            assert(mid.len() == max(old_out.len() as int, p));
            assert(self.out@.len() == target.len());
            assert forall|i: int| 0 <= i < target.len() implies self.out@[i] == target[i] by {
                if p <= i < p + bs@.len() {
                } else if i < old_out.len() {
                    assert(self.out@[i] == mid[i]);
                } else {
                    assert(self.out@[i] == mid[i] && mid[i] == 0u8);
                }
            }
            assert(self.out@ =~= target);
        }
        self.pos = self.pos + n;
        Ok(())
    }

    /// Writes one byte at the current position.
    pub fn put_u8(&mut self, v: u8) -> (r: Result<(), SsbhError>)
        ensures
            match r {
                Ok(()) => old(self).pos + 1 <= usize::MAX && final(self).out@
                    == spec_put_bytes(old(self).out@, old(self).pos as int, seq![v])
                    && final(self).pos == old(self).pos + 1,
                Err(e) => old(self).pos + 1 > usize::MAX && e == SsbhError::OffsetOverflow
                    && *final(self) == *old(self),
            },
    {
        let mut b: Vec<u8> = Vec::new();
        b.push(v);
        proof {
            assert(b@ =~= seq![v]);
        }
        self.put_bytes(&b)
    }

    /// Writes `v` little-endian at the current position.
    pub fn put_u16(&mut self, v: u16) -> (r: Result<(), SsbhError>)
        ensures
            match r {
                Ok(()) => old(self).pos + 2 <= usize::MAX && final(self).out@
                    == spec_put_bytes(old(self).out@, old(self).pos as int, u16_le_bytes(v))
                    && final(self).pos == old(self).pos + 2,
                Err(e) => old(self).pos + 2 > usize::MAX && e == SsbhError::OffsetOverflow
                    && *final(self) == *old(self),
            },
    {
        let mut b: Vec<u8> = Vec::new();
        b.push((v % 256) as u8);
        b.push((v / 256) as u8);
        proof {
            vstd::arithmetic::div_mod::lemma_small_mod((v as int / 256) as nat, 256);
            assert(b@ =~= u16_le_bytes(v));
        }
        self.put_bytes(&b)
    }

    /// Writes `v` little-endian at the current position.
    pub fn put_u32(&mut self, v: u32) -> (r: Result<(), SsbhError>)
        ensures
            match r {
                Ok(()) => old(self).pos + 4 <= usize::MAX && final(self).out@
                    == spec_put_bytes(old(self).out@, old(self).pos as int, u32_le_bytes(v))
                    && final(self).pos == old(self).pos + 4,
                Err(e) => old(self).pos + 4 > usize::MAX && e == SsbhError::OffsetOverflow
                    && *final(self) == *old(self),
            },
    {
        let mut b: Vec<u8> = Vec::new();
        b.push((v % 256) as u8);
        b.push(((v / 256) % 256) as u8);
        b.push(((v / 0x10000) % 256) as u8);
        b.push((v / 0x1000000) as u8);
        proof {
            vstd::arithmetic::div_mod::lemma_small_mod((v as int / 0x1000000) as nat, 256);
            assert(b@ =~= u32_le_bytes(v));
        }
        self.put_bytes(&b)
    }

    /// Writes `v` little-endian at the current position.
    pub fn put_u64(&mut self, v: u64) -> (r: Result<(), SsbhError>)
        ensures
            match r {
                Ok(()) => old(self).pos + 8 <= usize::MAX && final(self).out@
                    == spec_put_bytes(old(self).out@, old(self).pos as int, u64_le_bytes(v))
                    && final(self).pos == old(self).pos + 8,
                Err(e) => old(self).pos + 8 > usize::MAX && e == SsbhError::OffsetOverflow
                    && *final(self) == *old(self),
            },
    {
        let mut b: Vec<u8> = Vec::new();
        b.push((v % 256) as u8);
        b.push(((v / 256) % 256) as u8);
        b.push(((v / 0x10000) % 256) as u8);
        b.push(((v / 0x1000000) % 256) as u8);
        b.push(((v / 0x100000000) % 256) as u8);
        b.push(((v / 0x10000000000) % 256) as u8);
        b.push(((v / 0x1000000000000) % 256) as u8);
        b.push((v / 0x100000000000000) as u8);
        proof {
            vstd::arithmetic::div_mod::lemma_small_mod((v as int / 0x100000000000000) as nat, 256);
            assert(b@ =~= u64_le_bytes(v));
        }
        self.put_bytes(&b)
    }
}

} // verus!
