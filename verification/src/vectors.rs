//! Fixed-size numeric aggregates: vectors and row-major matrices.
//!
//! The codec never does arithmetic on these values; it only moves their
//! 32-bit fields between memory and disk.  Each component is therefore held
//! as the raw bit pattern of the 32-bit floating-point number it stores,
//! which a consumer reinterprets outside the codec.

use crate::bytes::{read_u32, u32_at};
use crate::engine::{SsbhRead, SsbhSize, SsbhWrite};
use crate::error::SsbhError;
use crate::writer::Writer;
use vstd::prelude::*;

verus! {

/// Two 32-bit components, stored x, y; used for decoded texture
/// coordinates, which never appear on disk as a unit.
#[derive(Debug, PartialEq, Eq, Structural, Clone, Copy)]
pub struct Vector2 {
    pub x: u32,
    pub y: u32,
}

/// Three 32-bit components, stored x, y, z.
#[derive(Debug, PartialEq, Eq, Structural, Clone, Copy)]
pub struct Vector3 {
    pub x: u32,
    pub y: u32,
    pub z: u32,
}

/// Four 32-bit components, stored x, y, z, w.
#[derive(Debug, PartialEq, Eq, Structural, Clone, Copy)]
pub struct Vector4 {
    pub x: u32,
    pub y: u32,
    pub z: u32,
    pub w: u32,
}

/// A 3x3 matrix in row-major order.
#[derive(Debug, PartialEq, Eq, Structural, Clone, Copy)]
pub struct Matrix3x3 {
    pub row1: Vector3,
    pub row2: Vector3,
    pub row3: Vector3,
}

/// A 4x4 matrix in row-major order.
#[derive(Debug, PartialEq, Eq, Structural, Clone, Copy)]
pub struct Matrix4x4 {
    pub row1: Vector4,
    pub row2: Vector4,
    pub row3: Vector4,
    pub row4: Vector4,
}

impl SsbhSize for Vector3 {
    open spec fn inline_size_spec() -> u64 {
        12
    }

    fn inline_size() -> u64 {
        12
    }

    proof fn lemma_inline_size_positive() {
    }
}

impl SsbhRead for Vector3 {
    open spec fn decodable(s: Seq<u8>, pos: int) -> bool {
        0 <= pos && pos + 12 <= s.len()
    }

    open spec fn decodes_to(s: Seq<u8>, pos: int, v: Vector3) -> bool {
        Self::decodable(s, pos) && v == (Vector3 {
            x: u32_at(s, pos),
            y: u32_at(s, pos + 4),
            z: u32_at(s, pos + 8),
        })
    }

    fn read_at(bytes: &Vec<u8>, pos: u64) -> (r: Result<(Self, u64), SsbhError>)
        ensures
            match r {
                Ok((v, next)) => v.x == u32_at(bytes@, pos as int) && v.y == u32_at(
                    bytes@,
                    pos as int + 4,
                ) && v.z == u32_at(bytes@, pos as int + 8),
                Err(_) => true,
            },
    {
        let x = read_u32(bytes, pos)?;
        let y = read_u32(bytes, pos + 4)?;
        let z = read_u32(bytes, pos + 8)?;
        Ok((Vector3 { x, y, z }, pos + 12))
    }
}

impl SsbhWrite for Vector3 {
    open spec fn align_spec() -> u64 {
        4
    }

    fn alignment() -> u64 {
        4
    }

    fn write_ssbh(&self, w: &mut Writer, data_ptr: &mut u64) -> (r: Result<(), SsbhError>)
        ensures
            *final(data_ptr) == *old(data_ptr),
            r.is_ok() ==> final(w).pos == old(w).pos + 12,
    {
        self.x.write_ssbh(w, data_ptr)?;
        self.y.write_ssbh(w, data_ptr)?;
        self.z.write_ssbh(w, data_ptr)?;
        Ok(())
    }
}

impl SsbhSize for Vector4 {
    open spec fn inline_size_spec() -> u64 {
        16
    }

    fn inline_size() -> u64 {
        16
    }

    proof fn lemma_inline_size_positive() {
    }
}

impl SsbhRead for Vector4 {
    open spec fn decodable(s: Seq<u8>, pos: int) -> bool {
        0 <= pos && pos + 16 <= s.len()
    }

    open spec fn decodes_to(s: Seq<u8>, pos: int, v: Vector4) -> bool {
        Self::decodable(s, pos) && v == (Vector4 {
            x: u32_at(s, pos),
            y: u32_at(s, pos + 4),
            z: u32_at(s, pos + 8),
            w: u32_at(s, pos + 12),
        })
    }

    fn read_at(bytes: &Vec<u8>, pos: u64) -> (r: Result<(Self, u64), SsbhError>)
        ensures
            match r {
                Ok((v, next)) => v.x == u32_at(bytes@, pos as int) && v.y == u32_at(
                    bytes@,
                    pos as int + 4,
                ) && v.z == u32_at(bytes@, pos as int + 8) && v.w == u32_at(
                    bytes@,
                    pos as int + 12,
                ),
                Err(_) => true,
            },
    {
        let x = read_u32(bytes, pos)?;
        let y = read_u32(bytes, pos + 4)?;
        let z = read_u32(bytes, pos + 8)?;
        let w = read_u32(bytes, pos + 12)?;
        Ok((Vector4 { x, y, z, w }, pos + 16))
    }
}

impl SsbhWrite for Vector4 {
    open spec fn align_spec() -> u64 {
        4
    }

    fn alignment() -> u64 {
        4
    }

    fn write_ssbh(&self, w: &mut Writer, data_ptr: &mut u64) -> (r: Result<(), SsbhError>)
        ensures
            *final(data_ptr) == *old(data_ptr),
            r.is_ok() ==> final(w).pos == old(w).pos + 16,
    {
        self.x.write_ssbh(w, data_ptr)?;
        self.y.write_ssbh(w, data_ptr)?;
        self.z.write_ssbh(w, data_ptr)?;
        self.w.write_ssbh(w, data_ptr)?;
        Ok(())
    }
}

impl SsbhSize for Matrix3x3 {
    open spec fn inline_size_spec() -> u64 {
        36
    }

    fn inline_size() -> u64 {
        36
    }

    proof fn lemma_inline_size_positive() {
    }
}

impl SsbhRead for Matrix3x3 {
    open spec fn decodable(s: Seq<u8>, pos: int) -> bool {
        0 <= pos && pos + 36 <= s.len()
    }

    open spec fn decodes_to(s: Seq<u8>, pos: int, v: Matrix3x3) -> bool {
        &&& Self::decodable(s, pos)
        &&& Vector3::decodes_to(s, pos, v.row1)
        &&& Vector3::decodes_to(s, pos + 12, v.row2)
        &&& Vector3::decodes_to(s, pos + 24, v.row3)
    }

    fn read_at(bytes: &Vec<u8>, pos: u64) -> (r: Result<(Self, u64), SsbhError>) {
        let (row1, p1) = Vector3::read_at(bytes, pos)?;
        let (row2, p2) = Vector3::read_at(bytes, p1)?;
        let (row3, p3) = Vector3::read_at(bytes, p2)?;
        Ok((Matrix3x3 { row1, row2, row3 }, p3))
    }
}

impl SsbhWrite for Matrix3x3 {
    open spec fn align_spec() -> u64 {
        4
    }

    fn alignment() -> u64 {
        4
    }

    fn write_ssbh(&self, w: &mut Writer, data_ptr: &mut u64) -> (r: Result<(), SsbhError>)
        ensures
            *final(data_ptr) == *old(data_ptr),
            r.is_ok() ==> final(w).pos == old(w).pos + 36,
    {
        self.row1.write_ssbh(w, data_ptr)?;
        self.row2.write_ssbh(w, data_ptr)?;
        self.row3.write_ssbh(w, data_ptr)?;
        Ok(())
    }
}

impl SsbhSize for Matrix4x4 {
    open spec fn inline_size_spec() -> u64 {
        64
    }

    fn inline_size() -> u64 {
        64
    }

    proof fn lemma_inline_size_positive() {
    }
}

impl SsbhRead for Matrix4x4 {
    open spec fn decodable(s: Seq<u8>, pos: int) -> bool {
        0 <= pos && pos + 64 <= s.len()
    }

    open spec fn decodes_to(s: Seq<u8>, pos: int, v: Matrix4x4) -> bool {
        &&& Self::decodable(s, pos)
        &&& Vector4::decodes_to(s, pos, v.row1)
        &&& Vector4::decodes_to(s, pos + 16, v.row2)
        &&& Vector4::decodes_to(s, pos + 32, v.row3)
        &&& Vector4::decodes_to(s, pos + 48, v.row4)
    }

    fn read_at(bytes: &Vec<u8>, pos: u64) -> (r: Result<(Self, u64), SsbhError>) {
        let (row1, p1) = Vector4::read_at(bytes, pos)?;
        let (row2, p2) = Vector4::read_at(bytes, p1)?;
        let (row3, p3) = Vector4::read_at(bytes, p2)?;
        let (row4, p4) = Vector4::read_at(bytes, p3)?;
        Ok((Matrix4x4 { row1, row2, row3, row4 }, p4))
    }
}

impl SsbhWrite for Matrix4x4 {
    open spec fn align_spec() -> u64 {
        4
    }

    fn alignment() -> u64 {
        4
    }

    fn write_ssbh(&self, w: &mut Writer, data_ptr: &mut u64) -> (r: Result<(), SsbhError>)
        ensures
            *final(data_ptr) == *old(data_ptr),
            r.is_ok() ==> final(w).pos == old(w).pos + 64,
    {
        self.row1.write_ssbh(w, data_ptr)?;
        self.row2.write_ssbh(w, data_ptr)?;
        self.row3.write_ssbh(w, data_ptr)?;
        self.row4.write_ssbh(w, data_ptr)?;
        Ok(())
    }
}

} // verus!
