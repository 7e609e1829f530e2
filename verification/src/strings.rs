//! Null-terminated strings behind relative pointers.
//!
//! A string field is a 64-bit relative offset to a null-terminated byte
//! sequence.  The empty string is representable (an offset to a lone
//! terminator) and distinct from an absent string (the zero offset).
//! Duplicate occurrences are written out each time; nothing is interned.

use crate::bytes::{lemma_u64_at_eq, read_bytes, u64_at, u64_le_bytes};
use crate::engine::{SsbhRead, SsbhSize, SsbhWrite};
use crate::error::SsbhError;
use crate::layout::{checked_round_up, spec_round_up};
use crate::ptr::read_rel_offset;
use crate::writer::{lemma_put_bytes_effects, lemma_u64_at_put, spec_put_bytes, Writer};
use vstd::math::max;
use vstd::prelude::*;

verus! {

/// The number of bytes before the first null terminator at or after `p`,
/// or `None` when no terminator exists inside `s`.
pub open spec fn cstr_scan(s: Seq<u8>, p: int) -> Option<int>
    decreases s.len() - p,
{
    if p < 0 || p >= s.len() {
        None
    } else if s[p] == 0 {
        Some(0)
    } else {
        match cstr_scan(s, p + 1) {
            Some(k) => Some(k + 1),
            None => None,
        }
    }
}

/// The null-terminated byte sequence that starts at `p`, without its
/// terminator.
pub open spec fn cstr_at(s: Seq<u8>, p: int) -> Seq<u8>
    recommends
        cstr_scan(s, p) is Some,
{
    s.subrange(p, p + cstr_scan(s, p)->Some_0)
}

/// A terminator at `e` with no earlier terminator pins `cstr_scan` down.
pub proof fn lemma_cstr_scan_found(s: Seq<u8>, p: int, e: int)
    requires
        0 <= p <= e < s.len(),
        s[e] == 0,
        forall|i: int| p <= i < e ==> s[i] != 0,
    ensures
        cstr_scan(s, p) == Some(e - p),
    decreases e - p,
{
    if s[p] == 0 {
        assert(e == p);
    } else {
        lemma_cstr_scan_found(s, p + 1, e);
    }
}

/// A buffer with no terminator from `p` on has no string there.
pub proof fn lemma_cstr_scan_none(s: Seq<u8>, p: int)
    requires
        0 <= p,
        forall|i: int| p <= i < s.len() ==> s[i] != 0,
    ensures
        cstr_scan(s, p) is None,
    decreases s.len() - p,
{
    if p < s.len() {
        lemma_cstr_scan_none(s, p + 1);
    }
}

/// Reads the null-terminated byte sequence at absolute position `p`;
/// succeeds exactly when a terminator exists before the end of the buffer.
pub fn read_cstr(bytes: &Vec<u8>, p: u64) -> (r: Result<Vec<u8>, SsbhError>)
    ensures
        match r {
            Ok(v) => cstr_scan(bytes@, p as int) == Some(v@.len() as int) && v@ == cstr_at(
                bytes@,
                p as int,
            ),
            Err(e) => e == SsbhError::Truncated && cstr_scan(bytes@, p as int) is None,
        },
{
    let n = bytes.len();
    let mut e = p;
    while e < n as u64 && bytes[e as usize] != 0
        invariant
            n == bytes@.len(),
            n <= usize::MAX,
            p <= e,
            e > n ==> e == p,
            forall|i: int| p <= i < e ==> bytes@[i] != 0,
        decreases n - e,
    {
        e = e + 1;
    }
    if e >= n as u64 {
        proof {
            lemma_cstr_scan_none(bytes@, p as int);
        }
        return Err(SsbhError::Truncated);
    }
    proof {
        lemma_cstr_scan_found(bytes@, p as int, e as int);
    }
    let v = read_bytes(bytes, p, (e - p) as usize)?;
    Ok(v)
}

/// A null-terminated string behind a 64-bit relative pointer; `None` is the
/// absent string, `Some` holds the bytes without their terminator.
#[derive(Debug, PartialEq, Eq, Clone)]
pub struct SsbhString {
    /// The string's bytes, without the terminator, or `None` when absent.
    pub bytes: Option<Vec<u8>>,
}

impl SsbhString {
    /// A present string with the given contents.
    pub fn new(contents: Vec<u8>) -> (r: Self)
        ensures
            r.bytes == Some(contents),
    {
        SsbhString { bytes: Some(contents) }
    }

    /// The absent string.
    pub fn null() -> (r: Self)
        ensures
            r.bytes is None,
    {
        SsbhString { bytes: None }
    }

    /// The string's bytes, or `None` when the string is absent.
    pub fn get_bytes(&self) -> (r: Option<&Vec<u8>>)
        ensures
            match r {
                Some(b) => self.bytes == Some(*b),
                None => self.bytes is None,
            },
    {
        match &self.bytes {
            Some(b) => Some(b),
            None => None,
        }
    }

    /// A string a writer can reproduce: its bytes hold no interior
    /// terminator.
    pub open spec fn wf(&self) -> bool {
        match self.bytes {
            Some(b) => forall|i: int| 0 <= i < b@.len() ==> b@[i] != 0,
            None => true,
        }
    }
}

impl SsbhSize for SsbhString {
    open spec fn inline_size_spec() -> u64 {
        8
    }

    fn inline_size() -> u64 {
        8
    }

    proof fn lemma_inline_size_positive() {
    }
}

impl SsbhRead for SsbhString {
    /// The field decodes when it lies inside the buffer and is either the
    /// zero sentinel or a resolvable offset to a terminated byte sequence.
    open spec fn decodable(s: Seq<u8>, pos: int) -> bool {
        &&& 0 <= pos
        &&& pos + 8 <= s.len()
        &&& (u64_at(s, pos) == 0 || (pos + u64_at(s, pos) <= u64::MAX && cstr_scan(
            s,
            pos + u64_at(s, pos),
        ) is Some))
    }

    open spec fn decodes_to(s: Seq<u8>, pos: int, v: Self) -> bool {
        &&& 0 <= pos
        &&& pos + 8 <= s.len()
        &&& if u64_at(s, pos) == 0 {
            v.bytes is None
        } else {
            &&& pos + u64_at(s, pos) <= u64::MAX
            &&& v.bytes is Some
            &&& v.bytes->Some_0@ == cstr_at(s, pos + u64_at(s, pos))
        }
    }

    /// Decodes the relative offset field at `pos`: the zero sentinel is the
    /// absent string, any other offset is followed to the null-terminated
    /// bytes it designates.
    fn read_at(bytes: &Vec<u8>, pos: u64) -> (r: Result<(Self, u64), SsbhError>)
        ensures
            match r {
                Ok((v, next)) => {
                    let off = u64_at(bytes@, pos as int);
                    &&& pos + 8 <= bytes@.len()
                    &&& (off == 0 <==> v.bytes is None)
                    &&& (off != 0 ==> cstr_scan(bytes@, pos + off) is Some && v.bytes is Some
                        && v.bytes->Some_0@ == cstr_at(bytes@, pos + off))
                },
                Err(_) => true,
            },
    {
        let target = read_rel_offset(bytes, pos)?;
        match target {
            None => Ok((SsbhString { bytes: None }, pos + 8)),
            Some(t) => {
                let contents = read_cstr(bytes, t)?;
                proof {
                    assert(contents@ =~= Some(contents)->Some_0@);
                }
                Ok((SsbhString { bytes: Some(contents) }, pos + 8))
            },
        }
    }
}

impl SsbhWrite for SsbhString {
    open spec fn align_spec() -> u64 {
        8
    }

    fn alignment() -> u64 {
        8
    }

    /// Writes the offset field at the current position and, for a present
    /// string, the bytes and their terminator at the shared data cursor
    /// rounded up to the 4-byte alignment of string data.  Decoding the
    /// written field recovers the same contents whenever they hold no
    /// interior terminator.
    #[verifier::rlimit(100)]
    #[verifier::spinoff_prover]
    fn write_ssbh(&self, w: &mut Writer, data_ptr: &mut u64) -> (r: Result<(), SsbhError>)
        ensures
            self.bytes is None && old(w).pos + 8 <= usize::MAX ==> r.is_ok(),
            r.is_ok() ==> final(w).pos == old(w).pos + 8,
            r.is_ok() && self.bytes is None ==> final(w).out@ == spec_put_bytes(
                old(w).out@,
                old(w).pos as int,
                u64_le_bytes(0),
            ) && *final(data_ptr) == max(*old(data_ptr) as int, old(w).pos + 8),
            r.is_ok() && self.bytes is Some ==> {
                let contents = self.bytes->Some_0@;
                let placement = spec_round_up(max(*old(data_ptr) as int, old(w).pos + 8), 4);
                &&& placement % 4 == 0
                &&& old(w).pos + 8 <= placement
                &&& u64_at(final(w).out@, old(w).pos as int) == placement - old(w).pos
                &&& *final(data_ptr) >= placement + contents.len() + 1
                &&& (self.wf() ==> cstr_scan(final(w).out@, placement) == Some(
                    contents.len() as int,
                ) && cstr_at(final(w).out@, placement) == contents)
            },
            r.is_ok() && self.wf() ==> Self::decodable(final(w).out@, old(w).pos as int)
                && Self::decodes_to(final(w).out@, old(w).pos as int, *self),
    {
        let pos = w.position();
        if pos > u64::MAX - 8 {
            return Err(SsbhError::OffsetOverflow);
        }
        let floor = pos + 8;
        if *data_ptr < floor {
            *data_ptr = floor;
        }
        match &self.bytes {
            None => {
                w.put_u64(0)?;
                Ok(())
            },
            Some(contents) => {
                let placement = checked_round_up(*data_ptr, 4)?;
                *data_ptr = placement;
                let offset = placement - pos;
                w.put_u64(offset)?;
                let ghost out1 = w.out@;
                proof {
                    lemma_u64_at_put(old(w).out@, pos as int, offset);
                }
                let resume = w.pos;
                w.seek(placement)?;
                w.put_bytes(contents)?;
                let ghost out2 = w.out@;
                proof {
                    lemma_put_bytes_effects(out1, placement as int, contents@);
                }
                w.put_u8(0)?;
                proof {
                    lemma_put_bytes_effects(out2, placement + contents@.len(), seq![0u8]);
                    lemma_u64_at_eq(out1, w.out@, pos as int);
                    if self.wf() {
                        lemma_cstr_scan_found(
                            w.out@,
                            placement as int,
                            placement + contents@.len(),
                        );
                        assert(cstr_at(w.out@, placement as int) =~= contents@);
                    }
                }
                let cur = w.position();
                if cur > *data_ptr {
                    *data_ptr = checked_round_up(cur, 4)?;
                }
                w.seek_usize(resume);
                Ok(())
            },
        }
    }
}

} // verus!
