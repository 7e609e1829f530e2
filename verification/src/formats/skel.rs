//! The skeleton format: an ordered, hierarchical collection of bones and
//! their transforms.  Bone order is significant, since each bone's `index`
//! and `parent_index` are positions in the bone array.

use crate::arrays::SsbhArray;
use crate::bytes::{
    lemma_u16_at_eq, lemma_u16_le_decode, read_u16, read_u8, u16_at, u16_le_bytes,
};
use crate::writer::lemma_put_bytes_effects;
use crate::engine::{SsbhRead, SsbhSize, SsbhWrite};
use crate::error::SsbhError;
use crate::strings::SsbhString;
use crate::vectors::Matrix4x4;
use crate::writer::Writer;
use vstd::prelude::*;

verus! {

/// How a bone faces the camera.
#[derive(Debug, PartialEq, Eq, Structural, Clone, Copy)]
pub enum BillboardType {
    /// The bone does not billboard.
    Disabled,
    /// The bone rotates along the X-axis to face the camera.
    XAxisAligned,
    /// The bone rotates along the Y-axis to face the camera.
    YAxisAligned,
    Unk3,
    /// The bone rotates along the X and Y axes to face the camera.
    XYAxisAligned,
    /// The bone rotates along the Y-axis to face the camera.
    YAxisAligned2,
    /// The bone rotates along the X and Y axes to face the camera.
    XYAxisAligned2,
}

impl BillboardType {
    /// The tag stored on disk for each billboarding mode.
    pub open spec fn code_spec(self) -> u8 {
        match self {
            BillboardType::Disabled => 0,
            BillboardType::XAxisAligned => 1,
            BillboardType::YAxisAligned => 2,
            BillboardType::Unk3 => 3,
            BillboardType::XYAxisAligned => 4,
            BillboardType::YAxisAligned2 => 6,
            BillboardType::XYAxisAligned2 => 8,
        }
    }

    /// Executable mirror of `code_spec`.
    pub fn code(&self) -> (r: u8)
        ensures
            r == self.code_spec(),
    {
        match self {
            BillboardType::Disabled => 0,
            BillboardType::XAxisAligned => 1,
            BillboardType::YAxisAligned => 2,
            BillboardType::Unk3 => 3,
            BillboardType::XYAxisAligned => 4,
            BillboardType::YAxisAligned2 => 6,
            BillboardType::XYAxisAligned2 => 8,
        }
    }

    /// Whether a stored tag names a billboarding mode.
    pub open spec fn code_valid(c: u8) -> bool {
        c == 0 || c == 1 || c == 2 || c == 3 || c == 4 || c == 6 || c == 8
    }

    /// Decodes a stored tag; a tag that names no mode is the malformed-tag
    /// failure.
    pub fn from_code(c: u8) -> (r: Result<BillboardType, SsbhError>)
        ensures
            match r {
                Ok(v) => Self::code_valid(c) && v.code_spec() == c,
                Err(e) => e == SsbhError::MalformedMagic && !Self::code_valid(c),
            },
    {
        match c {
            0 => Ok(BillboardType::Disabled),
            1 => Ok(BillboardType::XAxisAligned),
            2 => Ok(BillboardType::YAxisAligned),
            3 => Ok(BillboardType::Unk3),
            4 => Ok(BillboardType::XYAxisAligned),
            6 => Ok(BillboardType::YAxisAligned2),
            8 => Ok(BillboardType::XYAxisAligned2),
            _ => Err(SsbhError::MalformedMagic),
        }
    }
}

/// Per-bone flags; two padding bytes follow them on disk.
#[derive(Debug, PartialEq, Eq, Structural, Clone, Copy)]
pub struct SkelEntryFlags {
    pub unk1: u8,
    pub billboard_type: BillboardType,
}

impl SsbhSize for SkelEntryFlags {
    open spec fn inline_size_spec() -> u64 {
        4
    }

    fn inline_size() -> u64 {
        4
    }

    proof fn lemma_inline_size_positive() {
    }
}

impl SsbhRead for SkelEntryFlags {
    /// The flags decode when they and their two padding bytes lie inside
    /// the buffer and the billboard tag names a mode.
    open spec fn decodable(s: Seq<u8>, pos: int) -> bool {
        &&& 0 <= pos
        &&& pos + 4 <= s.len()
        &&& BillboardType::code_valid(s[pos + 1])
    }

    open spec fn decodes_to(s: Seq<u8>, pos: int, v: Self) -> bool {
        &&& Self::decodable(s, pos)
        &&& v.unk1 == s[pos]
        &&& v.billboard_type.code_spec() == s[pos + 1]
    }

    fn read_at(bytes: &Vec<u8>, pos: u64) -> (r: Result<(Self, u64), SsbhError>)
        ensures
            match r {
                Ok((v, next)) => v.unk1 == bytes@[pos as int] && v.billboard_type.code_spec()
                    == bytes@[pos as int + 1],
                Err(_) => true,
            },
    {
        let unk1 = read_u8(bytes, pos)?;
        let code = read_u8(bytes, pos + 1)?;
        let billboard_type = BillboardType::from_code(code)?;
        // The two padding bytes must be present for the record to be whole.
        let _pad = read_u16(bytes, pos + 2)?;
        Ok((SkelEntryFlags { unk1, billboard_type }, pos + 4))
    }
}

impl SsbhWrite for SkelEntryFlags {
    open spec fn align_spec() -> u64 {
        8
    }

    fn alignment() -> u64 {
        8
    }

    fn write_ssbh(&self, w: &mut Writer, data_ptr: &mut u64) -> (r: Result<(), SsbhError>)
        ensures
            *final(data_ptr) == *old(data_ptr),
            r.is_ok() ==> final(w).pos == old(w).pos + 4,
    {
        self.unk1.write_ssbh(w, data_ptr)?;
        self.billboard_type.code().write_ssbh(w, data_ptr)?;
        0u16.write_ssbh(w, data_ptr)?;
        Ok(())
    }
}

/// A named bone; `index` and `parent_index` are positions in the skeleton's
/// bone array, `parent_index` being -1 for a root bone.
#[derive(Debug, PartialEq, Eq, Clone)]
pub struct SkelBoneEntry {
    /// The name of the bone.
    pub name: SsbhString,
    /// The position of this entry in the bone array.
    pub index: u16,
    /// The position of the parent entry, or -1 when the bone has no parent.
    pub parent_index: i16,
    pub flags: SkelEntryFlags,
}

impl SsbhSize for SkelBoneEntry {
    open spec fn inline_size_spec() -> u64 {
        16
    }

    fn inline_size() -> u64 {
        16
    }

    proof fn lemma_inline_size_positive() {
    }
}

impl SsbhRead for SkelBoneEntry {
    open spec fn decodable(s: Seq<u8>, pos: int) -> bool {
        &&& SsbhString::decodable(s, pos)
        &&& u16::decodable(s, pos + 8)
        &&& i16::decodable(s, pos + 10)
        &&& SkelEntryFlags::decodable(s, pos + 12)
    }

    open spec fn decodes_to(s: Seq<u8>, pos: int, v: Self) -> bool {
        &&& SsbhString::decodes_to(s, pos, v.name)
        &&& u16::decodes_to(s, pos + 8, v.index)
        &&& i16::decodes_to(s, pos + 10, v.parent_index)
        &&& SkelEntryFlags::decodes_to(s, pos + 12, v.flags)
    }

    fn read_at(bytes: &Vec<u8>, pos: u64) -> (r: Result<(Self, u64), SsbhError>) {
        let (name, p1) = SsbhString::read_at(bytes, pos)?;
        let (index, p2) = u16::read_at(bytes, p1)?;
        let (parent_index, p3) = i16::read_at(bytes, p2)?;
        let (flags, p4) = SkelEntryFlags::read_at(bytes, p3)?;
        Ok((SkelBoneEntry { name, index, parent_index, flags }, p4))
    }
}

impl SsbhWrite for SkelBoneEntry {
    open spec fn align_spec() -> u64 {
        8
    }

    fn alignment() -> u64 {
        8
    }

    fn write_ssbh(&self, w: &mut Writer, data_ptr: &mut u64) -> (r: Result<(), SsbhError>)
        ensures
            r.is_ok() ==> final(w).pos == old(w).pos + 16,
    {
        let pos = w.position();
        if pos > u64::MAX - 16 {
            return Err(SsbhError::OffsetOverflow);
        }
        // Pointees of this record may never overlap its not-yet-written
        // fields.
        if *data_ptr < pos + 16 {
            *data_ptr = pos + 16;
        }
        self.name.write_ssbh(w, data_ptr)?;
        self.index.write_ssbh(w, data_ptr)?;
        self.parent_index.write_ssbh(w, data_ptr)?;
        self.flags.write_ssbh(w, data_ptr)?;
        Ok(())
    }
}

/// An ordered, hierarchical collection of bones and their associated
/// transforms, stored in matching positions of the transform arrays.
#[derive(Debug, PartialEq, Eq, Clone)]
pub enum Skel {
    /// File version 1.0, the only version of the skeleton format.
    V10 {
        /// The skeleton's bones, in index order.
        bone_entries: SsbhArray<SkelBoneEntry>,
        /// Each bone's transform in world space.
        world_transforms: SsbhArray<Matrix4x4>,
        /// The inverses of `world_transforms`.
        inv_world_transforms: SsbhArray<Matrix4x4>,
        /// Each bone's transform relative to its parent's world transform.
        transforms: SsbhArray<Matrix4x4>,
        /// The inverses of `transforms`.
        inv_transforms: SsbhArray<Matrix4x4>,
    },
}

impl Skel {
    /// The major and minor version the value encodes as.
    pub fn major_minor_version(&self) -> (r: (u16, u16))
        ensures
            r == (1u16, 0u16),
    {
        match self {
            Skel::V10 { .. } => (1, 0),
        }
    }
}

impl SsbhSize for Skel {
    open spec fn inline_size_spec() -> u64 {
        84
    }

    fn inline_size() -> u64 {
        84
    }

    proof fn lemma_inline_size_positive() {
    }
}

impl SsbhRead for Skel {
    /// The record decodes when its version pair is the one known version
    /// and each of its five arrays decodes at its position.
    open spec fn decodable(s: Seq<u8>, pos: int) -> bool {
        &&& 0 <= pos
        &&& pos + 4 <= s.len()
        &&& u16_at(s, pos) == 1
        &&& u16_at(s, pos + 2) == 0
        &&& SsbhArray::<SkelBoneEntry>::decodable(s, pos + 4)
        &&& SsbhArray::<Matrix4x4>::decodable(s, pos + 20)
        &&& SsbhArray::<Matrix4x4>::decodable(s, pos + 36)
        &&& SsbhArray::<Matrix4x4>::decodable(s, pos + 52)
        &&& SsbhArray::<Matrix4x4>::decodable(s, pos + 68)
    }

    open spec fn decodes_to(s: Seq<u8>, pos: int, v: Self) -> bool {
        &&& 0 <= pos
        &&& pos + 4 <= s.len()
        &&& u16_at(s, pos) == 1
        &&& u16_at(s, pos + 2) == 0
        &&& match v {
            Skel::V10 {
                bone_entries,
                world_transforms,
                inv_world_transforms,
                transforms,
                inv_transforms,
            } => {
                &&& SsbhArray::<SkelBoneEntry>::decodes_to(s, pos + 4, bone_entries)
                &&& SsbhArray::<Matrix4x4>::decodes_to(s, pos + 20, world_transforms)
                &&& SsbhArray::<Matrix4x4>::decodes_to(s, pos + 36, inv_world_transforms)
                &&& SsbhArray::<Matrix4x4>::decodes_to(s, pos + 52, transforms)
                &&& SsbhArray::<Matrix4x4>::decodes_to(s, pos + 68, inv_transforms)
            },
        }
    }

    /// Reads the version pair and, for the one known version, the record
    /// body; any other version pair is the malformed-tag failure.
    fn read_at(bytes: &Vec<u8>, pos: u64) -> (r: Result<(Self, u64), SsbhError>)
        ensures
            pos + 4 <= bytes@.len() && !(u16_at(bytes@, pos as int) == 1 && u16_at(
                bytes@,
                pos as int + 2,
            ) == 0) ==> r == Err::<(Self, u64), SsbhError>(SsbhError::MalformedMagic),
    {
        let major = read_u16(bytes, pos)?;
        let minor = read_u16(bytes, pos + 2)?;
        if !(major == 1 && minor == 0) {
            return Err(SsbhError::MalformedMagic);
        }
        let (bone_entries, p1) = SsbhArray::<SkelBoneEntry>::read_at(bytes, pos + 4)?;
        let (world_transforms, p2) = SsbhArray::<Matrix4x4>::read_at(bytes, p1)?;
        let (inv_world_transforms, p3) = SsbhArray::<Matrix4x4>::read_at(bytes, p2)?;
        let (transforms, p4) = SsbhArray::<Matrix4x4>::read_at(bytes, p3)?;
        let (inv_transforms, p5) = SsbhArray::<Matrix4x4>::read_at(bytes, p4)?;
        Ok(
            (
                Skel::V10 {
                    bone_entries,
                    world_transforms,
                    inv_world_transforms,
                    transforms,
                    inv_transforms,
                },
                p5,
            ),
        )
    }
}

impl SsbhWrite for Skel {
    open spec fn align_spec() -> u64 {
        8
    }

    fn alignment() -> u64 {
        8
    }

    /// Writes the version pair and the five arrays; the version fields of
    /// the written bytes decode back to the one known version.
    fn write_ssbh(&self, w: &mut Writer, data_ptr: &mut u64) -> (r: Result<(), SsbhError>)
        ensures
            r.is_ok() ==> final(w).pos == old(w).pos + 84,
            r.is_ok() ==> u16_at(final(w).out@, old(w).pos as int) == 1 && u16_at(
                final(w).out@,
                old(w).pos as int + 2,
            ) == 0,
    {
        let pos = w.position();
        if pos > u64::MAX - 84 {
            return Err(SsbhError::OffsetOverflow);
        }
        if *data_ptr < pos + 84 {
            *data_ptr = pos + 84;
        }
        match self {
            Skel::V10 {
                bone_entries,
                world_transforms,
                inv_world_transforms,
                transforms,
                inv_transforms,
            } => {
                1u16.write_ssbh(w, data_ptr)?;
                let ghost out1 = w.out@;
                proof {
                    lemma_u16_le_decode(1);
                    lemma_put_bytes_effects(old(w).out@, pos as int, u16_le_bytes(1));
                }
                0u16.write_ssbh(w, data_ptr)?;
                let ghost out2 = w.out@;
                proof {
                    lemma_u16_le_decode(0);
                    lemma_put_bytes_effects(out1, pos as int + 2, u16_le_bytes(0));
                    lemma_u16_at_eq(out1, out2, pos as int);
                }
                bone_entries.write_ssbh(w, data_ptr)?;
                world_transforms.write_ssbh(w, data_ptr)?;
                inv_world_transforms.write_ssbh(w, data_ptr)?;
                transforms.write_ssbh(w, data_ptr)?;
                inv_transforms.write_ssbh(w, data_ptr)?;
                proof {
                    lemma_u16_at_eq(out2, w.out@, pos as int);
                    lemma_u16_at_eq(out2, w.out@, pos as int + 2);
                }
                Ok(())
            },
        }
    }
}

} // verus!
