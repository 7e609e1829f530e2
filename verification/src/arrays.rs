//! Length-prefixed homogeneous sequences.
//!
//! On disk a sequence is a 64-bit absolute pointer to its first element
//! followed by a 64-bit element count; elements lie one after the other at
//! the pointed-to position.  Insertion order is disk order and is
//! semantically significant, since positions double as vertex, bone and
//! attribute indices elsewhere in a file.

use crate::bytes::{lemma_u64_at_eq, read_bytes, read_u64, u64_at, u64_le_bytes};
use crate::engine::{elem_pos, SsbhRead, SsbhSize, SsbhWrite};
use crate::error::SsbhError;
use crate::layout::{checked_round_up, spec_round_up};
use crate::writer::{lemma_put_bytes_effects, lemma_u64_at_put, spec_put_bytes, Writer};
use vstd::math::max;
use vstd::prelude::*;

verus! {

/// An ordered sequence of `T`, stored behind an absolute pointer and a
/// count.
#[derive(Debug, PartialEq, Eq, Clone)]
pub struct SsbhArray<T> {
    /// The materialized elements, in disk order.
    pub elements: Vec<T>,
}

impl<T> SsbhArray<T> {
    /// Wraps a list of elements.
    pub fn new(elements: Vec<T>) -> (r: Self)
        ensures
            r.elements == elements,
    {
        SsbhArray { elements }
    }
}

impl<T: SsbhSize> SsbhSize for SsbhArray<T> {
    open spec fn inline_size_spec() -> u64 {
        16
    }

    fn inline_size() -> u64 {
        16
    }

    proof fn lemma_inline_size_positive() {
    }
}

impl<T: SsbhRead> SsbhRead for SsbhArray<T> {
    /// The sequence decodes when its two fields lie inside the buffer and
    /// either the pointer is the zero sentinel or every element decodes at
    /// its position in the element region.
    open spec fn decodable(s: Seq<u8>, pos: int) -> bool {
        &&& 0 <= pos
        &&& pos + 16 <= s.len()
        &&& (u64_at(s, pos) == 0 || forall|i: int|
            0 <= i < u64_at(s, pos + 8) ==> T::decodable(
                s,
                #[trigger] elem_pos(u64_at(s, pos), i, T::inline_size_spec()),
            ))
    }

    open spec fn decodes_to(s: Seq<u8>, pos: int, v: Self) -> bool {
        &&& 0 <= pos
        &&& pos + 16 <= s.len()
        &&& if u64_at(s, pos) == 0 {
            v.elements@.len() == 0
        } else {
            &&& v.elements@.len() == u64_at(s, pos + 8)
            &&& forall|i: int|
                0 <= i < v.elements@.len() ==> T::decodes_to(
                    s,
                    #[trigger] elem_pos(u64_at(s, pos), i, T::inline_size_spec()),
                    v.elements@[i],
                )
        }
    }

    /// Reads the pointer and count fields at `pos`, then the elements one
    /// after the other at the pointed-to absolute position.  A zero pointer
    /// materializes as the empty sequence.
    fn read_at(bytes: &Vec<u8>, pos: u64) -> (r: Result<(Self, u64), SsbhError>)
        ensures
            match r {
                Ok((v, next)) => {
                    &&& pos + 16 <= bytes@.len()
                    &&& (u64_at(bytes@, pos as int) == 0 ==> v.elements@.len() == 0)
                    &&& (u64_at(bytes@, pos as int) != 0 ==> v.elements@.len() == u64_at(
                        bytes@,
                        pos as int + 8,
                    ))
                },
                Err(_) => true,
            },
    {
        let off = read_u64(bytes, pos)?;
        let count = read_u64(bytes, pos + 8)?;
        let next = pos + 16;
        if off == 0 {
            return Ok((SsbhArray { elements: Vec::new() }, next));
        }
        let ghost size = T::inline_size_spec();
        proof {
            T::lemma_inline_size_positive();
        }
        let mut elements: Vec<T> = Vec::new();
        let mut cur = off;
        let mut k: u64 = 0;
        while k < count
            invariant
                bytes@.len() <= usize::MAX,
                pos + 16 <= bytes@.len(),
                off == u64_at(bytes@, pos as int),
                off != 0,
                count == u64_at(bytes@, pos as int + 8),
                k <= count,
                elements@.len() == k,
                cur == off + k * size,
                size == T::inline_size_spec(),
                size >= 1,
                k > 0 ==> cur <= bytes@.len(),
                forall|j: int| 0 <= j < k ==> T::decodable(bytes@, #[trigger] elem_pos(off, j, size)),
                forall|j: int|
                    0 <= j < k ==> T::decodes_to(bytes@, #[trigger] elem_pos(off, j, size), elements@[j]),
            decreases count - k,
        {
            proof {
                assert(k * size >= k) by (nonlinear_arith)
                    requires
                        size >= 1,
                        k >= 0,
                ;
                assert((k + 1) * size == k * size + size) by (nonlinear_arith);
                assert(elem_pos(off, k as int, size) == cur);
            }
            let (v, c2) = match T::read_at(bytes, cur) {
                Ok(x) => x,
                Err(e) => {
                    proof {
                        assert(!T::decodable(bytes@, elem_pos(off, k as int, size)));
                    }
                    return Err(e);
                },
            };
            elements.push(v);
            cur = c2;
            k = k + 1;
        }
        Ok((SsbhArray { elements }, next))
    }
}

impl<T: SsbhSize + SsbhWrite> SsbhWrite for SsbhArray<T> {
    open spec fn align_spec() -> u64 {
        8
    }

    fn alignment() -> u64 {
        8
    }

    /// Writes the pointer and count fields at the current position, places
    /// the elements at the shared data cursor rounded up to the element
    /// alignment, and reserves the whole element region before any element
    /// is written, so element pointees are placed after all the elements.
    fn write_ssbh(&self, w: &mut Writer, data_ptr: &mut u64) -> (r: Result<(), SsbhError>)
        ensures
            self.elements@.len() == 0 && old(w).pos + 16 <= usize::MAX ==> r.is_ok(),
            r.is_ok() ==> final(w).pos == old(w).pos + 16,
            r.is_ok() && self.elements@.len() == 0 ==> u64_at(final(w).out@, old(w).pos as int)
                == 0 && u64_at(final(w).out@, old(w).pos as int + 8) == 0,
            r.is_ok() && self.elements@.len() > 0 ==> {
                let placement = spec_round_up(
                    max(*old(data_ptr) as int, old(w).pos + 16),
                    T::align_spec() as int,
                );
                &&& placement % (T::align_spec() as int) == 0
                &&& old(w).pos + 16 <= placement
                &&& u64_at(final(w).out@, old(w).pos as int) == placement
                &&& u64_at(final(w).out@, old(w).pos as int + 8) == self.elements@.len()
                &&& *final(data_ptr) >= placement + self.elements@.len()
                    * T::inline_size_spec()
            },
    {
        let pos = w.position();
        if pos > u64::MAX - 16 {
            return Err(SsbhError::OffsetOverflow);
        }
        let floor = pos + 16;
        if *data_ptr < floor {
            *data_ptr = floor;
        }
        let n = self.elements.len();
        if n == 0 {
            w.put_u64(0)?;
            let ghost out1 = w.out@;
            proof {
                lemma_u64_at_put(old(w).out@, pos as int, 0);
                lemma_put_bytes_effects(old(w).out@, pos as int, u64_le_bytes(0));
            }
            w.put_u64(0)?;
            proof {
                lemma_u64_at_put(out1, pos as int + 8, 0);
                lemma_put_bytes_effects(out1, pos as int + 8, u64_le_bytes(0));
                lemma_u64_at_eq(out1, w.out@, pos as int);
            }
            return Ok(());
        }
        let align = T::alignment();
        let placement = checked_round_up(*data_ptr, align)?;
        *data_ptr = placement;
        w.put_u64(placement)?;
        let ghost out1 = w.out@;
        proof {
            lemma_u64_at_put(old(w).out@, pos as int, placement);
            lemma_put_bytes_effects(old(w).out@, pos as int, u64_le_bytes(placement));
        }
        w.put_u64(n as u64)?;
        let ghost out2 = w.out@;
        proof {
            lemma_u64_at_put(out1, pos as int + 8, n as u64);
            lemma_put_bytes_effects(out1, pos as int + 8, u64_le_bytes(n as u64));
            lemma_u64_at_eq(out1, out2, pos as int);
        }
        let resume = w.pos;
        w.seek(placement)?;
        let esize = T::inline_size();
        if n as u64 > u64::MAX / esize {
            return Err(SsbhError::OffsetOverflow);
        }
        proof {
            vstd::arithmetic::div_mod::lemma_fundamental_div_mod(u64::MAX as int, esize as int);
            vstd::arithmetic::div_mod::lemma_mod_bound(u64::MAX as int, esize as int);
            assert((n as u64) * esize <= (u64::MAX / esize) * esize) by (nonlinear_arith)
                requires
                    n as u64 <= u64::MAX / esize,
                    esize >= 1,
            ;
        }
        let region = n as u64 * esize;
        let end = if placement > u64::MAX - region {
            return Err(SsbhError::OffsetOverflow);
        } else {
            placement + region
        };
        if *data_ptr < end {
            *data_ptr = end;
        }
        let mut k: usize = 0;
        while k < n
            invariant
                n == self.elements@.len(),
                k <= n,
                *data_ptr >= placement,
                *data_ptr >= end,
                end == placement + self.elements@.len() * T::inline_size_spec(),
                *data_ptr >= *old(data_ptr),
                w.pos >= placement,
                w.out@.len() >= out2.len(),
                out2.len() >= old(w).out@.len(),
                pos == old(w).pos,
                pos + 16 <= placement,
                pos + 16 <= out2.len(),
                forall|i: int| 0 <= i < placement && i < out2.len() ==> w.out@[i] == out2[i],
                forall|i: int|
                    0 <= i < old(w).pos && i < old(w).out@.len() ==> w.out@[i] == old(w).out@[i],
            decreases n - k,
        {
            self.elements[k].write_ssbh(w, data_ptr)?;
            k = k + 1;
        }
        w.seek_usize(resume);
        proof {
            lemma_u64_at_eq(out2, w.out@, pos as int);
            lemma_u64_at_eq(out2, w.out@, pos as int + 8);
        }
        Ok(())
    }
}

/// An opaque byte region used for vertex and rigging payloads; consumers
/// reinterpret its bytes with separately supplied offset, stride and type
/// metadata.
#[derive(Debug, PartialEq, Eq, Clone)]
pub struct SsbhByteBuffer {
    /// The raw bytes, in disk order.
    pub elements: Vec<u8>,
}

impl SsbhByteBuffer {
    /// Wraps a list of raw bytes.
    pub fn new(elements: Vec<u8>) -> (r: Self)
        ensures
            r.elements == elements,
    {
        SsbhByteBuffer { elements }
    }
}

impl SsbhSize for SsbhByteBuffer {
    open spec fn inline_size_spec() -> u64 {
        16
    }

    fn inline_size() -> u64 {
        16
    }

    proof fn lemma_inline_size_positive() {
    }
}

impl SsbhRead for SsbhByteBuffer {
    /// The region decodes when its two fields lie inside the buffer and
    /// either the pointer is the zero sentinel or the whole region does.
    open spec fn decodable(s: Seq<u8>, pos: int) -> bool {
        &&& 0 <= pos
        &&& pos + 16 <= s.len()
        &&& (u64_at(s, pos) == 0 || u64_at(s, pos) + u64_at(s, pos + 8) <= s.len())
    }

    open spec fn decodes_to(s: Seq<u8>, pos: int, v: Self) -> bool {
        &&& 0 <= pos
        &&& pos + 16 <= s.len()
        &&& if u64_at(s, pos) == 0 {
            v.elements@.len() == 0
        } else {
            &&& u64_at(s, pos) + u64_at(s, pos + 8) <= s.len()
            &&& v.elements@ == s.subrange(
                u64_at(s, pos) as int,
                u64_at(s, pos) + u64_at(s, pos + 8),
            )
        }
    }

    /// Reads the pointer and count fields at `pos` and copies the pointed-to
    /// byte region; a zero pointer materializes as the empty region.
    fn read_at(bytes: &Vec<u8>, pos: u64) -> (r: Result<(Self, u64), SsbhError>)
        ensures
            match r {
                Ok((v, next)) => {
                    &&& pos + 16 <= bytes@.len()
                    &&& (u64_at(bytes@, pos as int) == 0 ==> v.elements@.len() == 0)
                    &&& (u64_at(bytes@, pos as int) != 0 ==> v.elements@ == bytes@.subrange(
                        u64_at(bytes@, pos as int) as int,
                        u64_at(bytes@, pos as int) + u64_at(bytes@, pos as int + 8),
                    ))
                },
                Err(_) => true,
            },
    {
        let off = read_u64(bytes, pos)?;
        let count = read_u64(bytes, pos + 8)?;
        let next = pos + 16;
        if off == 0 {
            return Ok((SsbhByteBuffer { elements: Vec::new() }, next));
        }
        if count > bytes.len() as u64 {
            return Err(SsbhError::Truncated);
        }
        let elements = read_bytes(bytes, off, count as usize)?;
        Ok((SsbhByteBuffer { elements }, next))
    }
}

impl SsbhWrite for SsbhByteBuffer {
    open spec fn align_spec() -> u64 {
        8
    }

    fn alignment() -> u64 {
        8
    }

    /// Writes the pointer and count fields at the current position and the
    /// raw bytes at the shared data cursor.
    fn write_ssbh(&self, w: &mut Writer, data_ptr: &mut u64) -> (r: Result<(), SsbhError>)
        ensures
            self.elements@.len() == 0 && old(w).pos + 16 <= usize::MAX ==> r.is_ok(),
            r.is_ok() ==> final(w).pos == old(w).pos + 16,
            r.is_ok() && self.elements@.len() == 0 ==> u64_at(final(w).out@, old(w).pos as int)
                == 0 && u64_at(final(w).out@, old(w).pos as int + 8) == 0,
            r.is_ok() && self.elements@.len() > 0 ==> {
                let placement = spec_round_up(max(*old(data_ptr) as int, old(w).pos + 16), 1);
                &&& old(w).pos + 16 <= placement
                &&& u64_at(final(w).out@, old(w).pos as int) == placement
                &&& u64_at(final(w).out@, old(w).pos as int + 8) == self.elements@.len()
                &&& final(w).out@.subrange(placement, placement + self.elements@.len())
                    == self.elements@
                &&& *final(data_ptr) >= placement + self.elements@.len()
            },
            r.is_ok() ==> Self::decodable(final(w).out@, old(w).pos as int) && Self::decodes_to(
                final(w).out@,
                old(w).pos as int,
                *self,
            ),
    {
        let pos = w.position();
        if pos > u64::MAX - 16 {
            return Err(SsbhError::OffsetOverflow);
        }
        let floor = pos + 16;
        if *data_ptr < floor {
            *data_ptr = floor;
        }
        let n = self.elements.len();
        if n == 0 {
            w.put_u64(0)?;
            let ghost out1 = w.out@;
            proof {
                lemma_u64_at_put(old(w).out@, pos as int, 0);
                lemma_put_bytes_effects(old(w).out@, pos as int, u64_le_bytes(0));
            }
            w.put_u64(0)?;
            proof {
                lemma_u64_at_put(out1, pos as int + 8, 0);
                lemma_put_bytes_effects(out1, pos as int + 8, u64_le_bytes(0));
                lemma_u64_at_eq(out1, w.out@, pos as int);
            }
            return Ok(());
        }
        let placement = checked_round_up(*data_ptr, 1)?;
        *data_ptr = placement;
        w.put_u64(placement)?;
        let ghost out1 = w.out@;
        proof {
            lemma_u64_at_put(old(w).out@, pos as int, placement);
            lemma_put_bytes_effects(old(w).out@, pos as int, u64_le_bytes(placement));
        }
        w.put_u64(n as u64)?;
        let ghost out2 = w.out@;
        proof {
            lemma_u64_at_put(out1, pos as int + 8, n as u64);
            lemma_put_bytes_effects(out1, pos as int + 8, u64_le_bytes(n as u64));
            lemma_u64_at_eq(out1, out2, pos as int);
        }
        let resume = w.pos;
        w.seek(placement)?;
        w.put_bytes(&self.elements)?;
        proof {
            lemma_put_bytes_effects(out2, placement as int, self.elements@);
            lemma_u64_at_eq(out2, w.out@, pos as int);
            lemma_u64_at_eq(out2, w.out@, pos as int + 8);
        }
        let end = w.position();
        if end > *data_ptr {
            *data_ptr = end;
        }
        w.seek_usize(resume);
        Ok(())
    }
}

} // verus!
