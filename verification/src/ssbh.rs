//! The file container: a shared header, a format magic, and one record.
//!
//! Every file begins with the 4-byte magic `"HBSS"`, an 8-byte
//! total-size-or-reserved field, a 4-byte reserved field, and the 4-byte
//! format magic that names the record which follows; the format magic and
//! its record begin 16-byte aligned from the start of the stream.  Format
//! magics are stored byte-reversed relative to their mnemonic.

use crate::bytes::{
    lemma_u32_at_eq, lemma_u32_le_decode, lemma_u64_at_eq, lemma_u64_le_decode, read_u32, u32_at,
    u32_le_bytes, u64_at, u64_le_bytes,
};
use crate::engine::{SsbhRead, SsbhSize, SsbhWrite};
use crate::error::SsbhError;
use crate::formats::mesh::Mesh;
use crate::formats::nufx::Nufx;
use crate::formats::skel::Skel;
use crate::writer::{lemma_put_bytes_effects, Writer};
use vstd::prelude::*;

verus! {

/// The container magic `"HBSS"`, as the little-endian `u32` of its bytes.
pub const MAGIC_HBSS: u32 = 0x53534248;

/// The mesh format magic, stored as `"HSEM"`.
pub const MAGIC_MESH: u32 = 0x4D455348;

/// The skeleton format magic, stored as `"LEKS"`.
pub const MAGIC_SKEL: u32 = 0x534B454C;

/// The shader-program library format magic, stored as `"XFUN"`.
pub const MAGIC_NUFX: u32 = 0x4E554658;

/// The record a file carries, tagged by its format magic.
#[derive(Debug, PartialEq, Eq, Clone)]
pub enum SsbhFile {
    Mesh(Mesh),
    Skel(Skel),
    Nufx(Nufx),
}

impl SsbhFile {
    /// The format magic the record encodes under.
    pub open spec fn magic_spec(self) -> u32 {
        match self {
            SsbhFile::Mesh(_) => MAGIC_MESH,
            SsbhFile::Skel(_) => MAGIC_SKEL,
            SsbhFile::Nufx(_) => MAGIC_NUFX,
        }
    }
}

/// A whole file: the header is implicit, `data` is the record it carries.
#[derive(Debug, PartialEq, Eq, Clone)]
pub struct Ssbh {
    pub data: SsbhFile,
}

/// Whether `s` is a whole file that decodes: the container magic reads
/// `"HBSS"`, the format magic names a known format, and that format's record
/// decodes at the 16-byte-aligned position where it starts.
pub open spec fn ssbh_decodable(s: Seq<u8>) -> bool {
    &&& s.len() >= 20
    &&& u32_at(s, 0) == MAGIC_HBSS
    &&& if u32_at(s, 16) == MAGIC_MESH {
        Mesh::decodable(s, 20)
    } else if u32_at(s, 16) == MAGIC_SKEL {
        Skel::decodable(s, 20)
    } else if u32_at(s, 16) == MAGIC_NUFX {
        Nufx::decodable(s, 20)
    } else {
        false
    }
}

/// Whether `v` is the file the bytes of `s` decode to.
pub open spec fn ssbh_decodes_to(s: Seq<u8>, v: Ssbh) -> bool {
    &&& s.len() >= 20
    &&& u32_at(s, 0) == MAGIC_HBSS
    &&& match v.data {
        SsbhFile::Mesh(m) => u32_at(s, 16) == MAGIC_MESH && Mesh::decodes_to(s, 20, m),
        SsbhFile::Skel(k) => u32_at(s, 16) == MAGIC_SKEL && Skel::decodes_to(s, 20, k),
        SsbhFile::Nufx(n) => u32_at(s, 16) == MAGIC_NUFX && Nufx::decodes_to(s, 20, n),
    }
}

/// Writes the 20-byte file header: the container magic, the hardcoded
/// total-size field, the reserved field, and the format magic at the
/// 16-byte-aligned position where the record starts.
pub fn write_ssbh_header(w: &mut Writer, magic: u32) -> (r: Result<(), SsbhError>)
    requires
        old(w).pos == 0,
        old(w).out@.len() == 0,
    ensures
        r.is_ok(),
        match r {
            Ok(()) => {
                &&& final(w).pos == 20
                &&& final(w).out@.len() == 20
                &&& u32_at(final(w).out@, 0) == MAGIC_HBSS
                &&& u64_at(final(w).out@, 4) == 64
                &&& u32_at(final(w).out@, 12) == 0
                &&& u32_at(final(w).out@, 16) == magic
            },
            Err(_) => true,
        },
{
    w.put_u32(MAGIC_HBSS)?;
    let ghost o1 = w.out@;
    proof {
        lemma_u32_at_put(old(w).out@, 0, MAGIC_HBSS);
        assert(o1.len() == 4);
    }
    w.put_u64(64)?;
    let ghost o2 = w.out@;
    proof {
        lemma_put_bytes_effects(o1, 4, u64_le_bytes(64));
        lemma_u32_at_eq(o1, o2, 0);
        lemma_u64_le_decode(64);
    }
    w.put_u32(0)?;
    let ghost o3 = w.out@;
    proof {
        lemma_put_bytes_effects(o2, 12, u32_le_bytes(0));
        lemma_u32_at_eq(o2, o3, 0);
    }
    w.put_u32(magic)?;
    proof {
        assert(o2.len() == 12 && o3.len() == 16 && w.out@.len() == 20);
        lemma_u32_at_put(o3, 16, magic);
        lemma_put_bytes_effects(o3, 16, u32_le_bytes(magic));
        lemma_u32_at_eq(o3, w.out@, 0);
        lemma_u64_at_eq(o2, o3, 4);
        lemma_u64_at_eq(o3, w.out@, 4);
        lemma_u32_at_put(o2, 12, 0);
        lemma_u32_at_eq(o3, w.out@, 12);
    }
    Ok(())
}

/// Writing a `u32` little-endian at `pos` leaves a field there that decodes
/// back to the value written.
pub proof fn lemma_u32_at_put(out: Seq<u8>, pos: int, v: u32)
    requires
        pos >= 0,
    ensures
        crate::writer::spec_put_bytes(out, pos, u32_le_bytes(v)).len() >= pos
            + 4,
        u32_at(
            crate::writer::spec_put_bytes(out, pos, u32_le_bytes(v)),
            pos,
        ) == v,
{
    lemma_u32_le_decode(v);
    lemma_put_bytes_effects(out, pos, u32_le_bytes(v));
}

/// Serializes one record with its file header.  The shared data cursor
/// starts right past the record's fixed-size fields, so every pointee is
/// placed after all the fields that could still reference it.
pub fn write_ssbh_file<S: SsbhSize + SsbhWrite>(data: &S, magic: u32) -> (r: Result<
    Vec<u8>,
    SsbhError,
>)
    ensures
        match r {
            Ok(v) => {
                &&& v@.len() >= 20
                &&& u32_at(v@, 0) == MAGIC_HBSS
                &&& u64_at(v@, 4) == 64
                &&& u32_at(v@, 12) == 0
                &&& u32_at(v@, 16) == magic
            },
            Err(e) => e == SsbhError::OffsetOverflow || e == SsbhError::OffsetTooNarrow,
        },
{
    let mut w = Writer::new();
    write_ssbh_header(&mut w, magic)?;
    let ghost header_out = w.out@;
    let size = S::inline_size();
    if size > u64::MAX - 20 {
        return Err(SsbhError::OffsetOverflow);
    }
    let mut data_ptr: u64 = 20 + size;
    data.write_ssbh(&mut w, &mut data_ptr)?;
    proof {
        lemma_u32_at_eq(header_out, w.out@, 0);
        lemma_u64_at_eq(header_out, w.out@, 4);
        lemma_u32_at_eq(header_out, w.out@, 12);
        lemma_u32_at_eq(header_out, w.out@, 16);
    }
    Ok(w.into_bytes())
}

impl Ssbh {
    /// Parses a whole file, auto-detecting the format by its magic.  The
    /// container magic must read `"HBSS"` and the format magic must name a
    /// known format; any other tag is the malformed-magic failure.
    pub fn read(bytes: &Vec<u8>) -> (r: Result<Ssbh, SsbhError>)
        ensures
            match r {
                Ok(v) => ssbh_decodable(bytes@) && ssbh_decodes_to(bytes@, v) && u32_at(bytes@, 16)
                    == v.data.magic_spec(),
                Err(e) => !ssbh_decodable(bytes@) && (e == SsbhError::Truncated || e
                    == SsbhError::MalformedMagic || e == SsbhError::OffsetOverflow),
            },
            bytes@.len() < 4 ==> r == Err::<Ssbh, SsbhError>(SsbhError::Truncated),
            bytes@.len() >= 4 && u32_at(bytes@, 0) != MAGIC_HBSS ==> r == Err::<Ssbh, SsbhError>(
                SsbhError::MalformedMagic,
            ),
            bytes@.len() >= 20 && u32_at(bytes@, 0) == MAGIC_HBSS && u32_at(bytes@, 16)
                != MAGIC_MESH && u32_at(bytes@, 16) != MAGIC_SKEL && u32_at(bytes@, 16)
                != MAGIC_NUFX ==> r == Err::<Ssbh, SsbhError>(SsbhError::MalformedMagic),
    {
        let container = read_u32(bytes, 0)?;
        if container != MAGIC_HBSS {
            return Err(SsbhError::MalformedMagic);
        }
        let magic = read_u32(bytes, 16)?;
        if magic == MAGIC_MESH {
            let (mesh, _end) = Mesh::read_at(bytes, 20)?;
            Ok(Ssbh { data: SsbhFile::Mesh(mesh) })
        } else if magic == MAGIC_SKEL {
            let (skel, _end) = Skel::read_at(bytes, 20)?;
            Ok(Ssbh { data: SsbhFile::Skel(skel) })
        } else if magic == MAGIC_NUFX {
            let (nufx, _end) = Nufx::read_at(bytes, 20)?;
            Ok(Ssbh { data: SsbhFile::Nufx(nufx) })
        } else {
            Err(SsbhError::MalformedMagic)
        }
    }

    /// Serializes the carried record with its header into a fresh buffer.
    pub fn write(&self) -> (r: Result<Vec<u8>, SsbhError>)
        ensures
            match r {
                Ok(v) => v@.len() >= 20 && u32_at(v@, 0) == MAGIC_HBSS && u64_at(v@, 4) == 64
                    && u32_at(v@, 12) == 0 && u32_at(v@, 16) == self.data.magic_spec(),
                Err(e) => e == SsbhError::OffsetOverflow || e == SsbhError::OffsetTooNarrow,
            },
    {
        match &self.data {
            SsbhFile::Mesh(mesh) => write_ssbh_file(mesh, MAGIC_MESH),
            SsbhFile::Skel(skel) => write_ssbh_file(skel, MAGIC_SKEL),
            SsbhFile::Nufx(nufx) => write_ssbh_file(nufx, MAGIC_NUFX),
        }
    }
}

impl Mesh {
    /// Parses a whole file expected to carry a mesh record; a file carrying
    /// another known format is the type-mismatch failure.
    pub fn read(bytes: &Vec<u8>) -> (r: Result<Mesh, SsbhError>)
        ensures
            match r {
                Ok(v) => ssbh_decodable(bytes@) && u32_at(bytes@, 16) == MAGIC_MESH
                    && Mesh::decodes_to(bytes@, 20, v),
                Err(e) => !(ssbh_decodable(bytes@) && u32_at(bytes@, 16) == MAGIC_MESH) && (e
                    == SsbhError::Truncated || e == SsbhError::MalformedMagic || e
                    == SsbhError::OffsetOverflow || e == SsbhError::InvalidSsbhType),
            },
            ssbh_decodable(bytes@) && u32_at(bytes@, 16) != MAGIC_MESH ==> r == Err::<
                Mesh,
                SsbhError,
            >(SsbhError::InvalidSsbhType),
    {
        let ssbh = Ssbh::read(bytes)?;
        match ssbh.data {
            SsbhFile::Mesh(mesh) => Ok(mesh),
            _ => Err(SsbhError::InvalidSsbhType),
        }
    }

    /// Serializes the mesh with its file header into a fresh buffer.
    pub fn write(&self) -> (r: Result<Vec<u8>, SsbhError>)
        ensures
            match r {
                Ok(v) => v@.len() >= 20 && u32_at(v@, 0) == MAGIC_HBSS && u64_at(v@, 4) == 64
                    && u32_at(v@, 12) == 0 && u32_at(v@, 16) == MAGIC_MESH,
                Err(e) => e == SsbhError::OffsetOverflow || e == SsbhError::OffsetTooNarrow,
            },
    {
        write_ssbh_file(self, MAGIC_MESH)
    }
}

impl Skel {
    /// Parses a whole file expected to carry a skeleton record; a file
    /// carrying another known format is the type-mismatch failure.
    pub fn read(bytes: &Vec<u8>) -> (r: Result<Skel, SsbhError>)
        ensures
            match r {
                Ok(v) => ssbh_decodable(bytes@) && u32_at(bytes@, 16) == MAGIC_SKEL
                    && Skel::decodes_to(bytes@, 20, v),
                Err(e) => !(ssbh_decodable(bytes@) && u32_at(bytes@, 16) == MAGIC_SKEL) && (e
                    == SsbhError::Truncated || e == SsbhError::MalformedMagic || e
                    == SsbhError::OffsetOverflow || e == SsbhError::InvalidSsbhType),
            },
            ssbh_decodable(bytes@) && u32_at(bytes@, 16) != MAGIC_SKEL ==> r == Err::<
                Skel,
                SsbhError,
            >(SsbhError::InvalidSsbhType),
    {
        let ssbh = Ssbh::read(bytes)?;
        match ssbh.data {
            SsbhFile::Skel(skel) => Ok(skel),
            _ => Err(SsbhError::InvalidSsbhType),
        }
    }

    /// Serializes the skeleton with its file header into a fresh buffer.
    pub fn write(&self) -> (r: Result<Vec<u8>, SsbhError>)
        ensures
            match r {
                Ok(v) => v@.len() >= 20 && u32_at(v@, 0) == MAGIC_HBSS && u64_at(v@, 4) == 64
                    && u32_at(v@, 12) == 0 && u32_at(v@, 16) == MAGIC_SKEL,
                Err(e) => e == SsbhError::OffsetOverflow || e == SsbhError::OffsetTooNarrow,
            },
    {
        write_ssbh_file(self, MAGIC_SKEL)
    }
}

impl Nufx {
    /// Parses a whole file expected to carry a shader-program library; a
    /// file carrying another known format is the type-mismatch failure.
    pub fn read(bytes: &Vec<u8>) -> (r: Result<Nufx, SsbhError>)
        ensures
            match r {
                Ok(v) => ssbh_decodable(bytes@) && u32_at(bytes@, 16) == MAGIC_NUFX
                    && Nufx::decodes_to(bytes@, 20, v),
                Err(e) => !(ssbh_decodable(bytes@) && u32_at(bytes@, 16) == MAGIC_NUFX) && (e
                    == SsbhError::Truncated || e == SsbhError::MalformedMagic || e
                    == SsbhError::OffsetOverflow || e == SsbhError::InvalidSsbhType),
            },
            ssbh_decodable(bytes@) && u32_at(bytes@, 16) != MAGIC_NUFX ==> r == Err::<
                Nufx,
                SsbhError,
            >(SsbhError::InvalidSsbhType),
    {
        let ssbh = Ssbh::read(bytes)?;
        match ssbh.data {
            SsbhFile::Nufx(nufx) => Ok(nufx),
            _ => Err(SsbhError::InvalidSsbhType),
        }
    }

    /// Serializes the library with its file header into a fresh buffer.
    pub fn write(&self) -> (r: Result<Vec<u8>, SsbhError>)
        ensures
            match r {
                Ok(v) => v@.len() >= 20 && u32_at(v@, 0) == MAGIC_HBSS && u64_at(v@, 4) == 64
                    && u32_at(v@, 12) == 0 && u32_at(v@, 16) == MAGIC_NUFX,
                Err(e) => e == SsbhError::OffsetOverflow || e == SsbhError::OffsetTooNarrow,
            },
    {
        write_ssbh_file(self, MAGIC_NUFX)
    }
}

} // verus!
