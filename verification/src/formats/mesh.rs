//! The mesh format: vertex buffers and the geometric metadata needed to
//! interpret them.
//!
//! The file's major and minor version gate the shape of the per-vertex
//! attribute descriptors: version 1.8 uses a compact fixed layout, version
//! 1.10 an extended layout with an attribute-name list and a different
//! element-type code table.  The version values are decoded payload, so the
//! two shapes are a tagged variant chosen while reading.

use crate::arrays::{SsbhArray, SsbhByteBuffer};
use crate::bytes::{
    i32_at, lemma_u16_at_eq, lemma_u16_le_decode, read_u16, read_u32, u16_at, u16_le_bytes, u32_at,
    u64_at,
};
use crate::engine::{SsbhRead, SsbhSize, SsbhWrite};
use crate::error::SsbhError;
use crate::strings::SsbhString;
use crate::vectors::{Matrix3x3, Vector3};
use crate::writer::{lemma_put_bytes_effects, Writer};
use vstd::prelude::*;

verus! {

/// The width of one vertex index in the shared index buffer.
#[derive(Debug, PartialEq, Eq, Structural, Clone, Copy)]
pub enum DrawElementType {
    /// 16-bit unsigned indices.
    UnsignedShort,
    /// 32-bit unsigned indices.
    UnsignedInt,
}

impl DrawElementType {
    /// The tag stored on disk.
    pub open spec fn code_spec(self) -> u32 {
        match self {
            DrawElementType::UnsignedShort => 0,
            DrawElementType::UnsignedInt => 1,
        }
    }

    /// Executable mirror of `code_spec`.
    pub fn code(&self) -> (r: u32)
        ensures
            r == self.code_spec(),
    {
        match self {
            DrawElementType::UnsignedShort => 0,
            DrawElementType::UnsignedInt => 1,
        }
    }

    /// Whether a stored tag names an alternative.
    pub open spec fn code_valid(c: u32) -> bool {
        c == 0 || c == 1
    }

    /// Decodes a stored tag.
    pub fn from_code(c: u32) -> (r: Result<DrawElementType, SsbhError>)
        ensures
            match r {
                Ok(v) => Self::code_valid(c) && v.code_spec() == c,
                Err(e) => e == SsbhError::MalformedMagic && !Self::code_valid(c),
            },
    {
        match c {
            0 => Ok(DrawElementType::UnsignedShort),
            1 => Ok(DrawElementType::UnsignedInt),
            _ => Err(SsbhError::MalformedMagic),
        }
    }
}

/// How a mesh object binds to the skeleton.
#[derive(Debug, PartialEq, Eq, Structural, Clone, Copy)]
pub enum RiggingType {
    /// The whole object follows a single bone.
    SingleBound,
    /// Vertices carry per-bone weights.
    Weighted,
}

impl RiggingType {
    /// The tag stored on disk.
    pub open spec fn code_spec(self) -> u32 {
        match self {
            RiggingType::SingleBound => 0,
            RiggingType::Weighted => 1,
        }
    }

    /// Executable mirror of `code_spec`.
    pub fn code(&self) -> (r: u32)
        ensures
            r == self.code_spec(),
    {
        match self {
            RiggingType::SingleBound => 0,
            RiggingType::Weighted => 1,
        }
    }

    /// Whether a stored tag names an alternative.
    pub open spec fn code_valid(c: u32) -> bool {
        c == 0 || c == 1
    }

    /// Decodes a stored tag.
    pub fn from_code(c: u32) -> (r: Result<RiggingType, SsbhError>)
        ensures
            match r {
                Ok(v) => Self::code_valid(c) && v.code_spec() == c,
                Err(e) => e == SsbhError::MalformedMagic && !Self::code_valid(c),
            },
    {
        match c {
            0 => Ok(RiggingType::SingleBound),
            1 => Ok(RiggingType::Weighted),
            _ => Err(SsbhError::MalformedMagic),
        }
    }
}

/// The element type and component count of a version 1.10 attribute.
#[derive(Debug, PartialEq, Eq, Structural, Clone, Copy)]
pub enum AttributeDataType {
    /// Three 32-bit floating-point components.
    Float3,
    /// Four 8-bit unsigned components.
    Byte4,
    /// Four 16-bit floating-point components.
    HalfFloat4,
    /// Two 16-bit floating-point components.
    HalfFloat2,
}

impl AttributeDataType {
    /// The tag stored on disk.
    pub open spec fn code_spec(self) -> u32 {
        match self {
            AttributeDataType::Float3 => 0,
            AttributeDataType::Byte4 => 2,
            AttributeDataType::HalfFloat4 => 5,
            AttributeDataType::HalfFloat2 => 8,
        }
    }

    /// Executable mirror of `code_spec`.
    pub fn code(&self) -> (r: u32)
        ensures
            r == self.code_spec(),
    {
        match self {
            AttributeDataType::Float3 => 0,
            AttributeDataType::Byte4 => 2,
            AttributeDataType::HalfFloat4 => 5,
            AttributeDataType::HalfFloat2 => 8,
        }
    }

    /// Whether a stored tag names an alternative.
    pub open spec fn code_valid(c: u32) -> bool {
        c == 0 || c == 2 || c == 5 || c == 8
    }

    /// Decodes a stored tag.
    pub fn from_code(c: u32) -> (r: Result<AttributeDataType, SsbhError>)
        ensures
            match r {
                Ok(v) => Self::code_valid(c) && v.code_spec() == c,
                Err(e) => e == SsbhError::MalformedMagic && !Self::code_valid(c),
            },
    {
        match c {
            0 => Ok(AttributeDataType::Float3),
            2 => Ok(AttributeDataType::Byte4),
            5 => Ok(AttributeDataType::HalfFloat4),
            8 => Ok(AttributeDataType::HalfFloat2),
            _ => Err(SsbhError::MalformedMagic),
        }
    }
}

/// The element type and component count of a version 1.8 attribute.
#[derive(Debug, PartialEq, Eq, Structural, Clone, Copy)]
pub enum AttributeDataTypeV8 {
    /// Three 32-bit floating-point components.
    Float3,
    /// Four 16-bit floating-point components.
    HalfFloat4,
    /// Two 32-bit floating-point components.
    Float2,
    /// Four 8-bit unsigned components.
    Byte4,
}

impl AttributeDataTypeV8 {
    /// The tag stored on disk.
    pub open spec fn code_spec(self) -> u32 {
        match self {
            AttributeDataTypeV8::Float3 => 820,
            AttributeDataTypeV8::HalfFloat4 => 1077,
            AttributeDataTypeV8::Float2 => 1079,
            AttributeDataTypeV8::Byte4 => 1024,
        }
    }

    /// Executable mirror of `code_spec`.
    pub fn code(&self) -> (r: u32)
        ensures
            r == self.code_spec(),
    {
        match self {
            AttributeDataTypeV8::Float3 => 820,
            AttributeDataTypeV8::HalfFloat4 => 1077,
            AttributeDataTypeV8::Float2 => 1079,
            AttributeDataTypeV8::Byte4 => 1024,
        }
    }

    /// Whether a stored tag names an alternative.
    pub open spec fn code_valid(c: u32) -> bool {
        c == 820 || c == 1077 || c == 1079 || c == 1024
    }

    /// Decodes a stored tag.
    pub fn from_code(c: u32) -> (r: Result<AttributeDataTypeV8, SsbhError>)
        ensures
            match r {
                Ok(v) => Self::code_valid(c) && v.code_spec() == c,
                Err(e) => e == SsbhError::MalformedMagic && !Self::code_valid(c),
            },
    {
        match c {
            820 => Ok(AttributeDataTypeV8::Float3),
            1077 => Ok(AttributeDataTypeV8::HalfFloat4),
            1079 => Ok(AttributeDataTypeV8::Float2),
            1024 => Ok(AttributeDataTypeV8::Byte4),
            _ => Err(SsbhError::MalformedMagic),
        }
    }
}

/// What a vertex attribute is used for.
#[derive(Debug, PartialEq, Eq, Structural, Clone, Copy)]
pub enum AttributeUsage {
    Position,
    Normal,
    Tangent,
    TextureCoordinate,
    ColorSet,
    /// The color-set tag used by version 1.8 files.
    ColorSetV8,
}

impl AttributeUsage {
    /// The tag stored on disk.
    pub open spec fn code_spec(self) -> u32 {
        match self {
            AttributeUsage::Position => 0,
            AttributeUsage::Normal => 1,
            AttributeUsage::Tangent => 3,
            AttributeUsage::TextureCoordinate => 4,
            AttributeUsage::ColorSet => 5,
            AttributeUsage::ColorSetV8 => 8,
        }
    }

    /// Executable mirror of `code_spec`.
    pub fn code(&self) -> (r: u32)
        ensures
            r == self.code_spec(),
    {
        match self {
            AttributeUsage::Position => 0,
            AttributeUsage::Normal => 1,
            AttributeUsage::Tangent => 3,
            AttributeUsage::TextureCoordinate => 4,
            AttributeUsage::ColorSet => 5,
            AttributeUsage::ColorSetV8 => 8,
        }
    }

    /// Whether a stored tag names an alternative.
    pub open spec fn code_valid(c: u32) -> bool {
        c == 0 || c == 1 || c == 3 || c == 4 || c == 5 || c == 8
    }

    /// Decodes a stored tag.
    pub fn from_code(c: u32) -> (r: Result<AttributeUsage, SsbhError>)
        ensures
            match r {
                Ok(v) => Self::code_valid(c) && v.code_spec() == c,
                Err(e) => e == SsbhError::MalformedMagic && !Self::code_valid(c),
            },
    {
        match c {
            0 => Ok(AttributeUsage::Position),
            1 => Ok(AttributeUsage::Normal),
            3 => Ok(AttributeUsage::Tangent),
            4 => Ok(AttributeUsage::TextureCoordinate),
            5 => Ok(AttributeUsage::ColorSet),
            8 => Ok(AttributeUsage::ColorSetV8),
            _ => Err(SsbhError::MalformedMagic),
        }
    }
}

/// A bounding sphere; the radius is a 32-bit floating-point bit pattern.
#[derive(Debug, PartialEq, Eq, Structural, Clone, Copy)]
pub struct BoundingSphere {
    pub center: Vector3,
    pub radius: u32,
}

impl SsbhSize for BoundingSphere {
    open spec fn inline_size_spec() -> u64 {
        16
    }

    fn inline_size() -> u64 {
        16
    }

    proof fn lemma_inline_size_positive() {
    }
}

impl SsbhRead for BoundingSphere {
    open spec fn decodable(s: Seq<u8>, pos: int) -> bool {
        0 <= pos && pos + 16 <= s.len()
    }

    open spec fn decodes_to(s: Seq<u8>, pos: int, v: Self) -> bool {
        &&& Vector3::decodes_to(s, pos, v.center)
        &&& u32::decodes_to(s, pos + 12, v.radius)
    }

    fn read_at(bytes: &Vec<u8>, pos: u64) -> (r: Result<(Self, u64), SsbhError>) {
        let (center, p1) = Vector3::read_at(bytes, pos)?;
        let (radius, p2) = u32::read_at(bytes, p1)?;
        Ok((BoundingSphere { center, radius }, p2))
    }
}

impl SsbhWrite for BoundingSphere {
    open spec fn align_spec() -> u64 {
        4
    }

    fn alignment() -> u64 {
        4
    }

    fn write_ssbh(&self, w: &mut Writer, data_ptr: &mut u64) -> (r: Result<(), SsbhError>)
        ensures
            *final(data_ptr) == *old(data_ptr),
            r.is_ok() ==> final(w).pos == old(w).pos + 16,
    {
        self.center.write_ssbh(w, data_ptr)?;
        self.radius.write_ssbh(w, data_ptr)?;
        Ok(())
    }
}

/// An axis-aligned bounding volume.
#[derive(Debug, PartialEq, Eq, Structural, Clone, Copy)]
pub struct BoundingVolume {
    pub min: Vector3,
    pub max: Vector3,
}

impl SsbhSize for BoundingVolume {
    open spec fn inline_size_spec() -> u64 {
        24
    }

    fn inline_size() -> u64 {
        24
    }

    proof fn lemma_inline_size_positive() {
    }
}

impl SsbhRead for BoundingVolume {
    open spec fn decodable(s: Seq<u8>, pos: int) -> bool {
        0 <= pos && pos + 24 <= s.len()
    }

    open spec fn decodes_to(s: Seq<u8>, pos: int, v: Self) -> bool {
        &&& Vector3::decodes_to(s, pos, v.min)
        &&& Vector3::decodes_to(s, pos + 12, v.max)
    }

    fn read_at(bytes: &Vec<u8>, pos: u64) -> (r: Result<(Self, u64), SsbhError>) {
        let (min, p1) = Vector3::read_at(bytes, pos)?;
        let (max, p2) = Vector3::read_at(bytes, p1)?;
        Ok((BoundingVolume { min, max }, p2))
    }
}

impl SsbhWrite for BoundingVolume {
    open spec fn align_spec() -> u64 {
        4
    }

    fn alignment() -> u64 {
        4
    }

    fn write_ssbh(&self, w: &mut Writer, data_ptr: &mut u64) -> (r: Result<(), SsbhError>)
        ensures
            *final(data_ptr) == *old(data_ptr),
            r.is_ok() ==> final(w).pos == old(w).pos + 24,
    {
        self.min.write_ssbh(w, data_ptr)?;
        self.max.write_ssbh(w, data_ptr)?;
        Ok(())
    }
}

/// An oriented bounding box.
#[derive(Debug, PartialEq, Eq, Structural, Clone, Copy)]
pub struct OrientedBoundingBox {
    pub center: Vector3,
    pub transform: Matrix3x3,
    pub size: Vector3,
}

impl SsbhSize for OrientedBoundingBox {
    open spec fn inline_size_spec() -> u64 {
        60
    }

    fn inline_size() -> u64 {
        60
    }

    proof fn lemma_inline_size_positive() {
    }
}

impl SsbhRead for OrientedBoundingBox {
    open spec fn decodable(s: Seq<u8>, pos: int) -> bool {
        0 <= pos && pos + 60 <= s.len()
    }

    open spec fn decodes_to(s: Seq<u8>, pos: int, v: Self) -> bool {
        &&& Vector3::decodes_to(s, pos, v.center)
        &&& Matrix3x3::decodes_to(s, pos + 12, v.transform)
        &&& Vector3::decodes_to(s, pos + 48, v.size)
    }

    fn read_at(bytes: &Vec<u8>, pos: u64) -> (r: Result<(Self, u64), SsbhError>) {
        let (center, p1) = Vector3::read_at(bytes, pos)?;
        let (transform, p2) = Matrix3x3::read_at(bytes, p1)?;
        let (size, p3) = Vector3::read_at(bytes, p2)?;
        Ok((OrientedBoundingBox { center, transform, size }, p3))
    }
}

impl SsbhWrite for OrientedBoundingBox {
    open spec fn align_spec() -> u64 {
        4
    }

    fn alignment() -> u64 {
        4
    }

    fn write_ssbh(&self, w: &mut Writer, data_ptr: &mut u64) -> (r: Result<(), SsbhError>)
        ensures
            *final(data_ptr) == *old(data_ptr),
            r.is_ok() ==> final(w).pos == old(w).pos + 60,
    {
        self.center.write_ssbh(w, data_ptr)?;
        self.transform.write_ssbh(w, data_ptr)?;
        self.size.write_ssbh(w, data_ptr)?;
        Ok(())
    }
}

/// The three bounding volumes every mesh and mesh object carries.
#[derive(Debug, PartialEq, Eq, Structural, Clone, Copy)]
pub struct BoundingInfo {
    pub bounding_sphere: BoundingSphere,
    pub bounding_volume: BoundingVolume,
    pub oriented_bounding_box: OrientedBoundingBox,
}

impl SsbhSize for BoundingInfo {
    open spec fn inline_size_spec() -> u64 {
        100
    }

    fn inline_size() -> u64 {
        100
    }

    proof fn lemma_inline_size_positive() {
    }
}

impl SsbhRead for BoundingInfo {
    open spec fn decodable(s: Seq<u8>, pos: int) -> bool {
        0 <= pos && pos + 100 <= s.len()
    }

    open spec fn decodes_to(s: Seq<u8>, pos: int, v: Self) -> bool {
        &&& BoundingSphere::decodes_to(s, pos, v.bounding_sphere)
        &&& BoundingVolume::decodes_to(s, pos + 16, v.bounding_volume)
        &&& OrientedBoundingBox::decodes_to(s, pos + 40, v.oriented_bounding_box)
    }

    fn read_at(bytes: &Vec<u8>, pos: u64) -> (r: Result<(Self, u64), SsbhError>) {
        let (bounding_sphere, p1) = BoundingSphere::read_at(bytes, pos)?;
        let (bounding_volume, p2) = BoundingVolume::read_at(bytes, p1)?;
        let (oriented_bounding_box, p3) = OrientedBoundingBox::read_at(bytes, p2)?;
        Ok((BoundingInfo { bounding_sphere, bounding_volume, oriented_bounding_box }, p3))
    }
}

impl SsbhWrite for BoundingInfo {
    open spec fn align_spec() -> u64 {
        4
    }

    fn alignment() -> u64 {
        4
    }

    fn write_ssbh(&self, w: &mut Writer, data_ptr: &mut u64) -> (r: Result<(), SsbhError>)
        ensures
            *final(data_ptr) == *old(data_ptr),
            r.is_ok() ==> final(w).pos == old(w).pos + 100,
    {
        self.bounding_sphere.write_ssbh(w, data_ptr)?;
        self.bounding_volume.write_ssbh(w, data_ptr)?;
        self.oriented_bounding_box.write_ssbh(w, data_ptr)?;
        Ok(())
    }
}

/// Rigging metadata flags, kept verbatim as the 64 bits stored on disk; the
/// bit-field accessors are a consumer concern outside the codec.
#[derive(Debug, PartialEq, Eq, Structural, Clone, Copy)]
pub struct RiggingFlags {
    pub bits: u64,
}

impl SsbhSize for RiggingFlags {
    open spec fn inline_size_spec() -> u64 {
        8
    }

    fn inline_size() -> u64 {
        8
    }

    proof fn lemma_inline_size_positive() {
    }
}

impl SsbhRead for RiggingFlags {
    open spec fn decodable(s: Seq<u8>, pos: int) -> bool {
        0 <= pos && pos + 8 <= s.len()
    }

    open spec fn decodes_to(s: Seq<u8>, pos: int, v: Self) -> bool {
        Self::decodable(s, pos) && v.bits == u64_at(s, pos)
    }

    fn read_at(bytes: &Vec<u8>, pos: u64) -> (r: Result<(Self, u64), SsbhError>) {
        let (bits, p1) = u64::read_at(bytes, pos)?;
        Ok((RiggingFlags { bits }, p1))
    }
}

impl SsbhWrite for RiggingFlags {
    open spec fn align_spec() -> u64 {
        8
    }

    fn alignment() -> u64 {
        8
    }

    fn write_ssbh(&self, w: &mut Writer, data_ptr: &mut u64) -> (r: Result<(), SsbhError>)
        ensures
            *final(data_ptr) == *old(data_ptr),
            r.is_ok() ==> final(w).pos == old(w).pos + 8,
    {
        self.bits.write_ssbh(w, data_ptr)
    }
}

/// One bone's name and its raw weight-stream bytes.
#[derive(Debug, PartialEq, Eq, Clone)]
pub struct MeshBoneBuffer {
    pub bone_name: SsbhString,
    pub data: SsbhByteBuffer,
}

impl SsbhSize for MeshBoneBuffer {
    open spec fn inline_size_spec() -> u64 {
        24
    }

    fn inline_size() -> u64 {
        24
    }

    proof fn lemma_inline_size_positive() {
    }
}

impl SsbhRead for MeshBoneBuffer {
    open spec fn decodable(s: Seq<u8>, pos: int) -> bool {
        &&& SsbhString::decodable(s, pos)
        &&& SsbhByteBuffer::decodable(s, pos + 8)
    }

    open spec fn decodes_to(s: Seq<u8>, pos: int, v: Self) -> bool {
        &&& SsbhString::decodes_to(s, pos, v.bone_name)
        &&& SsbhByteBuffer::decodes_to(s, pos + 8, v.data)
    }

    fn read_at(bytes: &Vec<u8>, pos: u64) -> (r: Result<(Self, u64), SsbhError>) {
        let (bone_name, p1) = SsbhString::read_at(bytes, pos)?;
        let (data, p2) = SsbhByteBuffer::read_at(bytes, p1)?;
        Ok((MeshBoneBuffer { bone_name, data }, p2))
    }
}

impl SsbhWrite for MeshBoneBuffer {
    open spec fn align_spec() -> u64 {
        8
    }

    fn alignment() -> u64 {
        8
    }

    fn write_ssbh(&self, w: &mut Writer, data_ptr: &mut u64) -> (r: Result<(), SsbhError>)
        ensures
            r.is_ok() ==> final(w).pos == old(w).pos + 24,
    {
        let pos = w.position();
        if pos > u64::MAX - 24 {
            return Err(SsbhError::OffsetOverflow);
        }
        if *data_ptr < pos + 24 {
            *data_ptr = pos + 24;
        }
        self.bone_name.write_ssbh(w, data_ptr)?;
        self.data.write_ssbh(w, data_ptr)?;
        Ok(())
    }
}

/// Associates a mesh object, by name and sub-index rather than by direct
/// reference, with zero or more bone weight streams.
#[derive(Debug, PartialEq, Eq, Clone)]
pub struct MeshRiggingGroup {
    pub mesh_object_name: SsbhString,
    pub mesh_object_sub_index: u64,
    pub flags: RiggingFlags,
    pub buffers: SsbhArray<MeshBoneBuffer>,
}

impl SsbhSize for MeshRiggingGroup {
    open spec fn inline_size_spec() -> u64 {
        40
    }

    fn inline_size() -> u64 {
        40
    }

    proof fn lemma_inline_size_positive() {
    }
}

impl SsbhRead for MeshRiggingGroup {
    open spec fn decodable(s: Seq<u8>, pos: int) -> bool {
        &&& SsbhString::decodable(s, pos)
        &&& u64::decodable(s, pos + 8)
        &&& RiggingFlags::decodable(s, pos + 16)
        &&& SsbhArray::<MeshBoneBuffer>::decodable(s, pos + 24)
    }

    open spec fn decodes_to(s: Seq<u8>, pos: int, v: Self) -> bool {
        &&& SsbhString::decodes_to(s, pos, v.mesh_object_name)
        &&& u64::decodes_to(s, pos + 8, v.mesh_object_sub_index)
        &&& RiggingFlags::decodes_to(s, pos + 16, v.flags)
        &&& SsbhArray::<MeshBoneBuffer>::decodes_to(s, pos + 24, v.buffers)
    }

    fn read_at(bytes: &Vec<u8>, pos: u64) -> (r: Result<(Self, u64), SsbhError>) {
        let (mesh_object_name, p1) = SsbhString::read_at(bytes, pos)?;
        let (mesh_object_sub_index, p2) = u64::read_at(bytes, p1)?;
        let (flags, p3) = RiggingFlags::read_at(bytes, p2)?;
        let (buffers, p4) = SsbhArray::<MeshBoneBuffer>::read_at(bytes, p3)?;
        Ok((MeshRiggingGroup { mesh_object_name, mesh_object_sub_index, flags, buffers }, p4))
    }
}

impl SsbhWrite for MeshRiggingGroup {
    open spec fn align_spec() -> u64 {
        8
    }

    fn alignment() -> u64 {
        8
    }

    fn write_ssbh(&self, w: &mut Writer, data_ptr: &mut u64) -> (r: Result<(), SsbhError>)
        ensures
            r.is_ok() ==> final(w).pos == old(w).pos + 40,
    {
        let pos = w.position();
        if pos > u64::MAX - 40 {
            return Err(SsbhError::OffsetOverflow);
        }
        if *data_ptr < pos + 40 {
            *data_ptr = pos + 40;
        }
        self.mesh_object_name.write_ssbh(w, data_ptr)?;
        self.mesh_object_sub_index.write_ssbh(w, data_ptr)?;
        self.flags.write_ssbh(w, data_ptr)?;
        self.buffers.write_ssbh(w, data_ptr)?;
        Ok(())
    }
}

/// A version 1.8 attribute descriptor.
#[derive(Debug, PartialEq, Eq, Structural, Clone, Copy)]
pub struct MeshAttributeV8 {
    pub usage: AttributeUsage,
    pub data_type: AttributeDataTypeV8,
    /// Which of the two vertex-buffer slots the attribute reads from.
    pub buffer_index: u32,
    /// The byte offset within one stride of the chosen slot.
    pub buffer_offset: u32,
    /// Disambiguates repeated usages, starting from 0.
    pub sub_index: u32,
}

impl SsbhSize for MeshAttributeV8 {
    open spec fn inline_size_spec() -> u64 {
        20
    }

    fn inline_size() -> u64 {
        20
    }

    proof fn lemma_inline_size_positive() {
    }
}

impl SsbhRead for MeshAttributeV8 {
    open spec fn decodable(s: Seq<u8>, pos: int) -> bool {
        &&& 0 <= pos
        &&& pos + 20 <= s.len()
        &&& AttributeUsage::code_valid(u32_at(s, pos))
        &&& AttributeDataTypeV8::code_valid(u32_at(s, pos + 4))
    }

    open spec fn decodes_to(s: Seq<u8>, pos: int, v: Self) -> bool {
        &&& Self::decodable(s, pos)
        &&& v.usage.code_spec() == u32_at(s, pos)
        &&& v.data_type.code_spec() == u32_at(s, pos + 4)
        &&& v.buffer_index == u32_at(s, pos + 8)
        &&& v.buffer_offset == u32_at(s, pos + 12)
        &&& v.sub_index == u32_at(s, pos + 16)
    }

    fn read_at(bytes: &Vec<u8>, pos: u64) -> (r: Result<(Self, u64), SsbhError>) {
        let usage_code = read_u32(bytes, pos)?;
        let usage = AttributeUsage::from_code(usage_code)?;
        let type_code = read_u32(bytes, pos + 4)?;
        let data_type = AttributeDataTypeV8::from_code(type_code)?;
        let (buffer_index, p1) = u32::read_at(bytes, pos + 8)?;
        let (buffer_offset, p2) = u32::read_at(bytes, p1)?;
        let (sub_index, p3) = u32::read_at(bytes, p2)?;
        Ok((MeshAttributeV8 { usage, data_type, buffer_index, buffer_offset, sub_index }, p3))
    }
}

impl SsbhWrite for MeshAttributeV8 {
    open spec fn align_spec() -> u64 {
        8
    }

    fn alignment() -> u64 {
        8
    }

    fn write_ssbh(&self, w: &mut Writer, data_ptr: &mut u64) -> (r: Result<(), SsbhError>)
        ensures
            *final(data_ptr) == *old(data_ptr),
            r.is_ok() ==> final(w).pos == old(w).pos + 20,
    {
        self.usage.code().write_ssbh(w, data_ptr)?;
        self.data_type.code().write_ssbh(w, data_ptr)?;
        self.buffer_index.write_ssbh(w, data_ptr)?;
        self.buffer_offset.write_ssbh(w, data_ptr)?;
        self.sub_index.write_ssbh(w, data_ptr)?;
        Ok(())
    }
}

/// A version 1.10 attribute descriptor, which also carries a name and an
/// attribute-name list.
#[derive(Debug, PartialEq, Eq, Clone)]
pub struct MeshAttributeV10 {
    pub usage: AttributeUsage,
    pub data_type: AttributeDataType,
    /// Which of the two vertex-buffer slots the attribute reads from.
    pub buffer_index: u32,
    /// The byte offset within one stride of the chosen slot.
    pub buffer_offset: u32,
    /// Disambiguates repeated usages, starting from 0.
    pub sub_index: u64,
    pub name: SsbhString,
    pub attribute_names: SsbhArray<SsbhString>,
}

impl SsbhSize for MeshAttributeV10 {
    open spec fn inline_size_spec() -> u64 {
        48
    }

    fn inline_size() -> u64 {
        48
    }

    proof fn lemma_inline_size_positive() {
    }
}

impl SsbhRead for MeshAttributeV10 {
    open spec fn decodable(s: Seq<u8>, pos: int) -> bool {
        &&& 0 <= pos
        &&& pos + 24 <= s.len()
        &&& AttributeUsage::code_valid(u32_at(s, pos))
        &&& AttributeDataType::code_valid(u32_at(s, pos + 4))
        &&& SsbhString::decodable(s, pos + 24)
        &&& SsbhArray::<SsbhString>::decodable(s, pos + 32)
    }

    open spec fn decodes_to(s: Seq<u8>, pos: int, v: Self) -> bool {
        &&& 0 <= pos
        &&& pos + 24 <= s.len()
        &&& v.usage.code_spec() == u32_at(s, pos)
        &&& v.data_type.code_spec() == u32_at(s, pos + 4)
        &&& v.buffer_index == u32_at(s, pos + 8)
        &&& v.buffer_offset == u32_at(s, pos + 12)
        &&& v.sub_index == u64_at(s, pos + 16)
        &&& SsbhString::decodes_to(s, pos + 24, v.name)
        &&& SsbhArray::<SsbhString>::decodes_to(s, pos + 32, v.attribute_names)
    }

    fn read_at(bytes: &Vec<u8>, pos: u64) -> (r: Result<(Self, u64), SsbhError>) {
        let usage_code = read_u32(bytes, pos)?;
        let usage = AttributeUsage::from_code(usage_code)?;
        let type_code = read_u32(bytes, pos + 4)?;
        let data_type = AttributeDataType::from_code(type_code)?;
        let (buffer_index, p1) = u32::read_at(bytes, pos + 8)?;
        let (buffer_offset, p2) = u32::read_at(bytes, p1)?;
        let (sub_index, p3) = u64::read_at(bytes, p2)?;
        let (name, p4) = SsbhString::read_at(bytes, p3)?;
        let (attribute_names, p5) = SsbhArray::<SsbhString>::read_at(bytes, p4)?;
        Ok(
            (
                MeshAttributeV10 {
                    usage,
                    data_type,
                    buffer_index,
                    buffer_offset,
                    sub_index,
                    name,
                    attribute_names,
                },
                p5,
            ),
        )
    }
}

impl SsbhWrite for MeshAttributeV10 {
    open spec fn align_spec() -> u64 {
        8
    }

    fn alignment() -> u64 {
        8
    }

    fn write_ssbh(&self, w: &mut Writer, data_ptr: &mut u64) -> (r: Result<(), SsbhError>)
        ensures
            r.is_ok() ==> final(w).pos == old(w).pos + 48,
    {
        let pos = w.position();
        if pos > u64::MAX - 48 {
            return Err(SsbhError::OffsetOverflow);
        }
        if *data_ptr < pos + 48 {
            *data_ptr = pos + 48;
        }
        self.usage.code().write_ssbh(w, data_ptr)?;
        self.data_type.code().write_ssbh(w, data_ptr)?;
        self.buffer_index.write_ssbh(w, data_ptr)?;
        self.buffer_offset.write_ssbh(w, data_ptr)?;
        self.sub_index.write_ssbh(w, data_ptr)?;
        self.name.write_ssbh(w, data_ptr)?;
        self.attribute_names.write_ssbh(w, data_ptr)?;
        Ok(())
    }
}

/// The attribute descriptors of one mesh object, in the shape the file
/// version dictates.
#[derive(Debug, PartialEq, Eq, Clone)]
pub enum MeshAttributes {
    /// Version 1.8 descriptors.
    AttributesV8(SsbhArray<MeshAttributeV8>),
    /// Version 1.10 descriptors.
    AttributesV10(SsbhArray<MeshAttributeV10>),
}

/// Whether the attribute array at `pos` decodes in the shape the version
/// pair dictates.
pub open spec fn mesh_attributes_decodable(s: Seq<u8>, pos: int, major: u16, minor: u16) -> bool {
    if major == 1 && minor == 8 {
        SsbhArray::<MeshAttributeV8>::decodable(s, pos)
    } else if major == 1 && minor == 10 {
        SsbhArray::<MeshAttributeV10>::decodable(s, pos)
    } else {
        false
    }
}

/// Whether `v` is the attribute array the bytes at `pos` decode to under
/// the version pair.
pub open spec fn mesh_attributes_decodes_to(
    s: Seq<u8>,
    pos: int,
    major: u16,
    minor: u16,
    v: MeshAttributes,
) -> bool {
    match v {
        MeshAttributes::AttributesV8(arr) => major == 1 && minor == 8 && SsbhArray::<
            MeshAttributeV8,
        >::decodes_to(s, pos, arr),
        MeshAttributes::AttributesV10(arr) => major == 1 && minor == 10 && SsbhArray::<
            MeshAttributeV10,
        >::decodes_to(s, pos, arr),
    }
}

/// Reads the attribute array of a mesh object in the shape the version pair
/// dictates; a version pair that names no known shape is the malformed-tag
/// failure.
pub fn read_mesh_attributes(bytes: &Vec<u8>, pos: u64, major_version: u16, minor_version: u16) -> (r:
    Result<(MeshAttributes, u64), SsbhError>)
    ensures
        match r {
            Ok((v, next)) => {
                &&& mesh_attributes_decodable(bytes@, pos as int, major_version, minor_version)
                &&& mesh_attributes_decodes_to(bytes@, pos as int, major_version, minor_version, v)
                &&& next == pos + 16
                &&& next <= bytes@.len()
            },
            Err(e) => !mesh_attributes_decodable(bytes@, pos as int, major_version, minor_version) && (e == SsbhError::Truncated || e == SsbhError::MalformedMagic
                || e == SsbhError::OffsetOverflow),
        },
        !(major_version == 1 && (minor_version == 8 || minor_version == 10)) ==> r == Err::<
            (MeshAttributes, u64),
            SsbhError,
        >(SsbhError::MalformedMagic),
{
    if major_version == 1 && minor_version == 8 {
        let (attrs, next) = SsbhArray::<MeshAttributeV8>::read_at(bytes, pos)?;
        Ok((MeshAttributes::AttributesV8(attrs), next))
    } else if major_version == 1 && minor_version == 10 {
        let (attrs, next) = SsbhArray::<MeshAttributeV10>::read_at(bytes, pos)?;
        Ok((MeshAttributes::AttributesV10(attrs), next))
    } else {
        Err(SsbhError::MalformedMagic)
    }
}

impl SsbhWrite for MeshAttributes {
    open spec fn align_spec() -> u64 {
        8
    }

    fn alignment() -> u64 {
        8
    }

    fn write_ssbh(&self, w: &mut Writer, data_ptr: &mut u64) -> (r: Result<(), SsbhError>)
        ensures
            r.is_ok() ==> final(w).pos == old(w).pos + 16,
    {
        match self {
            MeshAttributes::AttributesV8(attrs) => attrs.write_ssbh(w, data_ptr),
            MeshAttributes::AttributesV10(attrs) => attrs.write_ssbh(w, data_ptr),
        }
    }
}

/// One drawable object of a mesh: where its vertices, indices and
/// attributes live inside the shared buffers.
#[derive(Debug, PartialEq, Eq, Clone)]
pub struct MeshObject {
    pub name: SsbhString,
    /// Distinguishes objects that share a name.
    pub sub_index: i64,
    pub parent_bone_name: SsbhString,
    pub vertex_count: u32,
    pub vertex_index_count: u32,
    pub unk2: u32,
    /// Byte offset of this object's vertices in buffer slot 0.
    pub vertex_offset: u32,
    /// Byte offset of this object's vertices in buffer slot 1.
    pub vertex_offset2: u32,
    pub final_buffer_offset: u32,
    pub buffer_index: i32,
    /// Byte stride of one vertex in buffer slot 0.
    pub stride: u32,
    /// Byte stride of one vertex in buffer slot 1.
    pub stride2: u32,
    pub unk6: u32,
    pub unk7: u32,
    /// Byte offset of this object's indices in the shared index buffer.
    pub element_offset: u32,
    pub unk8: u32,
    pub draw_element_type: DrawElementType,
    pub rigging_type: RiggingType,
    pub unk11: i32,
    pub unk12: u32,
    pub bounding_info: BoundingInfo,
    pub attributes: MeshAttributes,
}

impl SsbhSize for MeshObject {
    open spec fn inline_size_spec() -> u64 {
        208
    }

    fn inline_size() -> u64 {
        208
    }

    proof fn lemma_inline_size_positive() {
    }
}

/// Whether one mesh object decodes at `pos` under the version pair.
pub open spec fn mesh_object_decodable(s: Seq<u8>, pos: int, major: u16, minor: u16) -> bool {
    &&& SsbhString::decodable(s, pos)
    &&& i64::decodable(s, pos + 8)
    &&& SsbhString::decodable(s, pos + 16)
    &&& 0 <= pos && pos + 92 <= s.len()
    &&& DrawElementType::code_valid(u32_at(s, pos + 76))
    &&& RiggingType::code_valid(u32_at(s, pos + 80))
    &&& BoundingInfo::decodable(s, pos + 92)
    &&& mesh_attributes_decodable(s, pos + 192, major, minor)
}

/// Whether `v` is the mesh object the bytes at `pos` decode to under the
/// version pair.
pub open spec fn mesh_object_decodes_to(
    s: Seq<u8>,
    pos: int,
    major: u16,
    minor: u16,
    v: MeshObject,
) -> bool {
    &&& SsbhString::decodes_to(s, pos, v.name)
    &&& i64::decodes_to(s, pos + 8, v.sub_index)
    &&& SsbhString::decodes_to(s, pos + 16, v.parent_bone_name)
    &&& 0 <= pos && pos + 92 <= s.len()
    &&& v.vertex_count == u32_at(s, pos + 24)
    &&& v.vertex_index_count == u32_at(s, pos + 28)
    &&& v.unk2 == u32_at(s, pos + 32)
    &&& v.vertex_offset == u32_at(s, pos + 36)
    &&& v.vertex_offset2 == u32_at(s, pos + 40)
    &&& v.final_buffer_offset == u32_at(s, pos + 44)
    &&& v.buffer_index == i32_at(s, pos + 48)
    &&& v.stride == u32_at(s, pos + 52)
    &&& v.stride2 == u32_at(s, pos + 56)
    &&& v.unk6 == u32_at(s, pos + 60)
    &&& v.unk7 == u32_at(s, pos + 64)
    &&& v.element_offset == u32_at(s, pos + 68)
    &&& v.unk8 == u32_at(s, pos + 72)
    &&& v.draw_element_type.code_spec() == u32_at(s, pos + 76)
    &&& v.rigging_type.code_spec() == u32_at(s, pos + 80)
    &&& v.unk11 == i32_at(s, pos + 84)
    &&& v.unk12 == u32_at(s, pos + 88)
    &&& BoundingInfo::decodes_to(s, pos + 92, v.bounding_info)
    &&& mesh_attributes_decodes_to(s, pos + 192, major, minor, v.attributes)
}

/// Reads one mesh object; the version pair dictates the attribute shape.
pub fn read_mesh_object(bytes: &Vec<u8>, pos: u64, major_version: u16, minor_version: u16) -> (r:
    Result<(MeshObject, u64), SsbhError>)
    ensures
        match r {
            Ok((v, next)) => {
                &&& mesh_object_decodable(bytes@, pos as int, major_version, minor_version)
                &&& mesh_object_decodes_to(bytes@, pos as int, major_version, minor_version, v)
                &&& next == pos + 208
                &&& next <= bytes@.len()
            },
            Err(e) => !mesh_object_decodable(bytes@, pos as int, major_version, minor_version) && (e == SsbhError::Truncated || e == SsbhError::MalformedMagic
                || e == SsbhError::OffsetOverflow),
        },
{
    let (name, p1) = SsbhString::read_at(bytes, pos)?;
    let (sub_index, p2) = i64::read_at(bytes, p1)?;
    let (parent_bone_name, p3) = SsbhString::read_at(bytes, p2)?;
    let (vertex_count, p4) = u32::read_at(bytes, p3)?;
    let (vertex_index_count, p5) = u32::read_at(bytes, p4)?;
    let (unk2, p6) = u32::read_at(bytes, p5)?;
    let (vertex_offset, p7) = u32::read_at(bytes, p6)?;
    let (vertex_offset2, p8) = u32::read_at(bytes, p7)?;
    let (final_buffer_offset, p9) = u32::read_at(bytes, p8)?;
    let (buffer_index, p10) = i32::read_at(bytes, p9)?;
    let (stride, p11) = u32::read_at(bytes, p10)?;
    let (stride2, p12) = u32::read_at(bytes, p11)?;
    let (unk6, p13) = u32::read_at(bytes, p12)?;
    let (unk7, p14) = u32::read_at(bytes, p13)?;
    let (element_offset, p15) = u32::read_at(bytes, p14)?;
    let (unk8, p16) = u32::read_at(bytes, p15)?;
    let draw_code = read_u32(bytes, p16)?;
    let draw_element_type = DrawElementType::from_code(draw_code)?;
    let rig_code = read_u32(bytes, p16 + 4)?;
    let rigging_type = RiggingType::from_code(rig_code)?;
    let (unk11, p17) = i32::read_at(bytes, p16 + 8)?;
    let (unk12, p18) = u32::read_at(bytes, p17)?;
    let (bounding_info, p19) = BoundingInfo::read_at(bytes, p18)?;
    let (attributes, p20) = read_mesh_attributes(bytes, p19, major_version, minor_version)?;
    Ok(
        (
            MeshObject {
                name,
                sub_index,
                parent_bone_name,
                vertex_count,
                vertex_index_count,
                unk2,
                vertex_offset,
                vertex_offset2,
                final_buffer_offset,
                buffer_index,
                stride,
                stride2,
                unk6,
                unk7,
                element_offset,
                unk8,
                draw_element_type,
                rigging_type,
                unk11,
                unk12,
                bounding_info,
                attributes,
            },
            p20,
        ),
    )
}

impl SsbhWrite for MeshObject {
    open spec fn align_spec() -> u64 {
        8
    }

    fn alignment() -> u64 {
        8
    }

    fn write_ssbh(&self, w: &mut Writer, data_ptr: &mut u64) -> (r: Result<(), SsbhError>)
        ensures
            r.is_ok() ==> final(w).pos == old(w).pos + 208,
    {
        let pos = w.position();
        if pos > u64::MAX - 208 {
            return Err(SsbhError::OffsetOverflow);
        }
        if *data_ptr < pos + 208 {
            *data_ptr = pos + 208;
        }
        self.name.write_ssbh(w, data_ptr)?;
        self.sub_index.write_ssbh(w, data_ptr)?;
        self.parent_bone_name.write_ssbh(w, data_ptr)?;
        self.vertex_count.write_ssbh(w, data_ptr)?;
        self.vertex_index_count.write_ssbh(w, data_ptr)?;
        self.unk2.write_ssbh(w, data_ptr)?;
        self.vertex_offset.write_ssbh(w, data_ptr)?;
        self.vertex_offset2.write_ssbh(w, data_ptr)?;
        self.final_buffer_offset.write_ssbh(w, data_ptr)?;
        self.buffer_index.write_ssbh(w, data_ptr)?;
        self.stride.write_ssbh(w, data_ptr)?;
        self.stride2.write_ssbh(w, data_ptr)?;
        self.unk6.write_ssbh(w, data_ptr)?;
        self.unk7.write_ssbh(w, data_ptr)?;
        self.element_offset.write_ssbh(w, data_ptr)?;
        self.unk8.write_ssbh(w, data_ptr)?;
        self.draw_element_type.code().write_ssbh(w, data_ptr)?;
        self.rigging_type.code().write_ssbh(w, data_ptr)?;
        self.unk11.write_ssbh(w, data_ptr)?;
        self.unk12.write_ssbh(w, data_ptr)?;
        self.bounding_info.write_ssbh(w, data_ptr)?;
        self.attributes.write_ssbh(w, data_ptr)?;
        Ok(())
    }
}

/// Whether the mesh-object array at `pos` decodes under the version pair.
pub open spec fn mesh_objects_decodable(s: Seq<u8>, pos: int, major: u16, minor: u16) -> bool {
    &&& 0 <= pos
    &&& pos + 16 <= s.len()
    &&& (u64_at(s, pos) == 0 || forall|i: int|
        0 <= i < u64_at(s, pos + 8) ==> mesh_object_decodable(
            s,
            #[trigger] crate::engine::elem_pos(u64_at(s, pos), i, 208),
            major,
            minor,
        ))
}

/// Whether `v` is the mesh-object array the bytes at `pos` decode to under
/// the version pair.
pub open spec fn mesh_objects_decodes_to(
    s: Seq<u8>,
    pos: int,
    major: u16,
    minor: u16,
    v: SsbhArray<MeshObject>,
) -> bool {
    &&& 0 <= pos
    &&& pos + 16 <= s.len()
    &&& if u64_at(s, pos) == 0 {
        v.elements@.len() == 0
    } else {
        &&& v.elements@.len() == u64_at(s, pos + 8)
        &&& forall|i: int|
            0 <= i < v.elements@.len() ==> mesh_object_decodes_to(
                s,
                #[trigger] crate::engine::elem_pos(u64_at(s, pos), i, 208),
                major,
                minor,
                v.elements@[i],
            )
    }
}

/// Reads the mesh-object array of a mesh file, handing the version pair to
/// each element.
pub fn read_mesh_objects(bytes: &Vec<u8>, pos: u64, major_version: u16, minor_version: u16) -> (r:
    Result<(SsbhArray<MeshObject>, u64), SsbhError>)
    ensures
        match r {
            Ok((v, next)) => {
                &&& mesh_objects_decodable(bytes@, pos as int, major_version, minor_version)
                &&& mesh_objects_decodes_to(bytes@, pos as int, major_version, minor_version, v)
                &&& next == pos + 16
                &&& next <= bytes@.len()
            },
            Err(e) => !mesh_objects_decodable(bytes@, pos as int, major_version, minor_version) && (e == SsbhError::Truncated || e == SsbhError::MalformedMagic
                || e == SsbhError::OffsetOverflow),
        },
{
    let off = crate::bytes::read_u64(bytes, pos)?;
    let count = crate::bytes::read_u64(bytes, pos + 8)?;
    let next = pos + 16;
    if off == 0 {
        return Ok((SsbhArray { elements: Vec::new() }, next));
    }
    let mut elements: Vec<MeshObject> = Vec::new();
    let mut cur = off;
    let mut k: u64 = 0;
    while k < count
        invariant
            bytes@.len() <= usize::MAX,
            k <= count,
            elements@.len() == k,
            cur == off + k * 208,
            pos + 16 <= bytes@.len(),
            off == u64_at(bytes@, pos as int),
            off != 0,
            count == u64_at(bytes@, pos as int + 8),
            forall|j: int|
                0 <= j < k ==> mesh_object_decodable(
                    bytes@,
                    #[trigger] crate::engine::elem_pos(off, j, 208),
                    major_version,
                    minor_version,
                ),
            forall|j: int|
                0 <= j < k ==> mesh_object_decodes_to(
                    bytes@,
                    #[trigger] crate::engine::elem_pos(off, j, 208),
                    major_version,
                    minor_version,
                    elements@[j],
                ),
        decreases count - k,
    {
        let r = read_mesh_object(bytes, cur, major_version, minor_version);
        proof {
            assert(k * 208 >= k) by (nonlinear_arith)
                requires
                    k >= 0,
            ;
            assert((k + 1) * 208 == k * 208 + 208) by (nonlinear_arith);
            assert(crate::engine::elem_pos(off, k as int, 208) == cur);
        }
        let (v, c2) = match r {
            Ok(x) => x,
            Err(e) => {
                proof {
                    assert(!mesh_object_decodable(
                        bytes@,
                        crate::engine::elem_pos(off, k as int, 208),
                        major_version,
                        minor_version,
                    ));
                }
                return Err(e);
            },
        };
        elements.push(v);
        cur = c2;
        k = k + 1;
    }
    Ok((SsbhArray { elements }, next))
}

/// The vertex buffers and associated geometric data for a mesh, compatible
/// with file versions 1.8 and 1.10.
#[derive(Debug, PartialEq, Eq, Clone)]
pub struct Mesh {
    pub major_version: u16,
    pub minor_version: u16,
    pub model_name: SsbhString,
    pub bounding_info: BoundingInfo,
    pub unk1: u32,
    pub objects: SsbhArray<MeshObject>,
    pub buffer_sizes: SsbhArray<u32>,
    pub polygon_index_size: u64,
    /// The two raw vertex-buffer slots objects read from.
    pub vertex_buffers: SsbhArray<SsbhByteBuffer>,
    /// The shared index buffer.
    pub polygon_buffer: SsbhByteBuffer,
    pub rigging_buffers: SsbhArray<MeshRiggingGroup>,
    /// Kept verbatim; probably padding.
    pub unknown_offset: u64,
    /// Kept verbatim; probably padding.
    pub unknown_size: u64,
}

impl SsbhSize for Mesh {
    open spec fn inline_size_spec() -> u64 {
        220
    }

    fn inline_size() -> u64 {
        220
    }

    proof fn lemma_inline_size_positive() {
    }
}

impl SsbhRead for Mesh {
    /// The record decodes when its version pair names a known shape and
    /// every field decodes at its position under that pair.
    open spec fn decodable(s: Seq<u8>, pos: int) -> bool {
        &&& 0 <= pos
        &&& pos + 4 <= s.len()
        &&& u16_at(s, pos) == 1
        &&& (u16_at(s, pos + 2) == 8 || u16_at(s, pos + 2) == 10)
        &&& SsbhString::decodable(s, pos + 4)
        &&& BoundingInfo::decodable(s, pos + 12)
        &&& u32::decodable(s, pos + 112)
        &&& mesh_objects_decodable(s, pos + 116, u16_at(s, pos), u16_at(s, pos + 2))
        &&& SsbhArray::<u32>::decodable(s, pos + 132)
        &&& u64::decodable(s, pos + 148)
        &&& SsbhArray::<SsbhByteBuffer>::decodable(s, pos + 156)
        &&& SsbhByteBuffer::decodable(s, pos + 172)
        &&& SsbhArray::<MeshRiggingGroup>::decodable(s, pos + 188)
        &&& u64::decodable(s, pos + 204)
        &&& u64::decodable(s, pos + 212)
    }

    open spec fn decodes_to(s: Seq<u8>, pos: int, v: Self) -> bool {
        &&& 0 <= pos
        &&& pos + 4 <= s.len()
        &&& v.major_version == u16_at(s, pos)
        &&& v.minor_version == u16_at(s, pos + 2)
        &&& SsbhString::decodes_to(s, pos + 4, v.model_name)
        &&& BoundingInfo::decodes_to(s, pos + 12, v.bounding_info)
        &&& u32::decodes_to(s, pos + 112, v.unk1)
        &&& mesh_objects_decodes_to(s, pos + 116, u16_at(s, pos), u16_at(s, pos + 2), v.objects)
        &&& SsbhArray::<u32>::decodes_to(s, pos + 132, v.buffer_sizes)
        &&& u64::decodes_to(s, pos + 148, v.polygon_index_size)
        &&& SsbhArray::<SsbhByteBuffer>::decodes_to(s, pos + 156, v.vertex_buffers)
        &&& SsbhByteBuffer::decodes_to(s, pos + 172, v.polygon_buffer)
        &&& SsbhArray::<MeshRiggingGroup>::decodes_to(s, pos + 188, v.rigging_buffers)
        &&& u64::decodes_to(s, pos + 204, v.unknown_offset)
        &&& u64::decodes_to(s, pos + 212, v.unknown_size)
    }

    /// Reads a whole mesh record at `pos`; the version pair it begins with
    /// gates the attribute-descriptor shape, and a version pair that names
    /// no known shape is the malformed-tag failure.
    fn read_at(bytes: &Vec<u8>, pos: u64) -> (r: Result<(Self, u64), SsbhError>)
        ensures
            pos + 4 <= bytes@.len() && !(u16_at(bytes@, pos as int) == 1 && (u16_at(
                bytes@,
                pos as int + 2,
            ) == 8 || u16_at(bytes@, pos as int + 2) == 10)) ==> r == Err::<(Self, u64), SsbhError>(
                SsbhError::MalformedMagic,
            ),
    {
        let major_version = read_u16(bytes, pos)?;
        let minor_version = read_u16(bytes, pos + 2)?;
        if !(major_version == 1 && (minor_version == 8 || minor_version == 10)) {
            return Err(SsbhError::MalformedMagic);
        }
        let (model_name, p1) = SsbhString::read_at(bytes, pos + 4)?;
        let (bounding_info, p2) = BoundingInfo::read_at(bytes, p1)?;
        let (unk1, p3) = u32::read_at(bytes, p2)?;
        let (objects, p4) = read_mesh_objects(bytes, p3, major_version, minor_version)?;
        let (buffer_sizes, p5) = SsbhArray::<u32>::read_at(bytes, p4)?;
        let (polygon_index_size, p6) = u64::read_at(bytes, p5)?;
        let (vertex_buffers, p7) = SsbhArray::<SsbhByteBuffer>::read_at(bytes, p6)?;
        let (polygon_buffer, p8) = SsbhByteBuffer::read_at(bytes, p7)?;
        let (rigging_buffers, p9) = SsbhArray::<MeshRiggingGroup>::read_at(bytes, p8)?;
        let (unknown_offset, p10) = u64::read_at(bytes, p9)?;
        let (unknown_size, p11) = u64::read_at(bytes, p10)?;
        Ok(
            (
                Mesh {
                    major_version,
                    minor_version,
                    model_name,
                    bounding_info,
                    unk1,
                    objects,
                    buffer_sizes,
                    polygon_index_size,
                    vertex_buffers,
                    polygon_buffer,
                    rigging_buffers,
                    unknown_offset,
                    unknown_size,
                },
                p11,
            ),
        )
    }
}

impl SsbhWrite for Mesh {
    open spec fn align_spec() -> u64 {
        8
    }

    fn alignment() -> u64 {
        8
    }

    /// Writes the version pair and the record's fields; the version fields
    /// of the written bytes decode back to the versions written.
    #[verifier::rlimit(100)]
    fn write_ssbh(&self, w: &mut Writer, data_ptr: &mut u64) -> (r: Result<(), SsbhError>)
        ensures
            r.is_ok() ==> final(w).pos == old(w).pos + 220,
            r.is_ok() ==> u16_at(final(w).out@, old(w).pos as int) == self.major_version && u16_at(
                final(w).out@,
                old(w).pos as int + 2,
            ) == self.minor_version,
    {
        let pos = w.position();
        if pos > u64::MAX - 220 {
            return Err(SsbhError::OffsetOverflow);
        }
        if *data_ptr < pos + 220 {
            *data_ptr = pos + 220;
        }
        self.major_version.write_ssbh(w, data_ptr)?;
        let ghost out1 = w.out@;
        proof {
            lemma_u16_le_decode(self.major_version);
            lemma_put_bytes_effects(old(w).out@, pos as int, u16_le_bytes(self.major_version));
        }
        self.minor_version.write_ssbh(w, data_ptr)?;
        let ghost out2 = w.out@;
        proof {
            lemma_u16_le_decode(self.minor_version);
            lemma_put_bytes_effects(out1, pos as int + 2, u16_le_bytes(self.minor_version));
            lemma_u16_at_eq(out1, out2, pos as int);
        }
        self.model_name.write_ssbh(w, data_ptr)?;
        self.bounding_info.write_ssbh(w, data_ptr)?;
        self.unk1.write_ssbh(w, data_ptr)?;
        self.objects.write_ssbh(w, data_ptr)?;
        self.buffer_sizes.write_ssbh(w, data_ptr)?;
        self.polygon_index_size.write_ssbh(w, data_ptr)?;
        self.vertex_buffers.write_ssbh(w, data_ptr)?;
        self.polygon_buffer.write_ssbh(w, data_ptr)?;
        self.rigging_buffers.write_ssbh(w, data_ptr)?;
        self.unknown_offset.write_ssbh(w, data_ptr)?;
        self.unknown_size.write_ssbh(w, data_ptr)?;
        proof {
            lemma_u16_at_eq(out2, w.out@, pos as int);
            lemma_u16_at_eq(out2, w.out@, pos as int + 2);
        }
        Ok(())
    }
}

} // verus!
