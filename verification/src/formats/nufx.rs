//! The shader-program library format: shader programs and their inputs.

use crate::arrays::SsbhArray;
use crate::engine::{SsbhRead, SsbhSize, SsbhWrite};
use crate::error::SsbhError;
use crate::ptr::RelPtr64;
use crate::strings::SsbhString;
use crate::writer::Writer;
use vstd::prelude::*;

verus! {

/// A vertex input of a shader program.
#[derive(Debug, PartialEq, Eq, Clone)]
pub struct VertexAttribute {
    pub name: SsbhString,
    pub attribute_name: SsbhString,
}

impl SsbhSize for VertexAttribute {
    open spec fn inline_size_spec() -> u64 {
        16
    }

    fn inline_size() -> u64 {
        16
    }

    proof fn lemma_inline_size_positive() {
    }
}

impl SsbhRead for VertexAttribute {
    open spec fn decodable(s: Seq<u8>, pos: int) -> bool {
        &&& SsbhString::decodable(s, pos)
        &&& SsbhString::decodable(s, pos + 8)
    }

    open spec fn decodes_to(s: Seq<u8>, pos: int, v: Self) -> bool {
        &&& SsbhString::decodes_to(s, pos, v.name)
        &&& SsbhString::decodes_to(s, pos + 8, v.attribute_name)
    }

    fn read_at(bytes: &Vec<u8>, pos: u64) -> (r: Result<(Self, u64), SsbhError>) {
        let (name, p1) = SsbhString::read_at(bytes, pos)?;
        let (attribute_name, p2) = SsbhString::read_at(bytes, p1)?;
        Ok((VertexAttribute { name, attribute_name }, p2))
    }
}

impl SsbhWrite for VertexAttribute {
    open spec fn align_spec() -> u64 {
        8
    }

    fn alignment() -> u64 {
        8
    }

    fn write_ssbh(&self, w: &mut Writer, data_ptr: &mut u64) -> (r: Result<(), SsbhError>)
        ensures
            r.is_ok() ==> final(w).pos == old(w).pos + 16,
    {
        let pos = w.position();
        if pos > u64::MAX - 16 {
            return Err(SsbhError::OffsetOverflow);
        }
        if *data_ptr < pos + 16 {
            *data_ptr = pos + 16;
        }
        self.name.write_ssbh(w, data_ptr)?;
        self.attribute_name.write_ssbh(w, data_ptr)?;
        Ok(())
    }
}

/// A material input of a shader program; eight padding bytes follow it on
/// disk.
#[derive(Debug, PartialEq, Eq, Clone)]
pub struct MaterialParameter {
    pub param_id: u64,
    pub parameter_name: SsbhString,
}

impl SsbhSize for MaterialParameter {
    open spec fn inline_size_spec() -> u64 {
        24
    }

    fn inline_size() -> u64 {
        24
    }

    proof fn lemma_inline_size_positive() {
    }
}

impl SsbhRead for MaterialParameter {
    /// The eight padding bytes that close the record must lie inside the
    /// buffer for the record to decode.
    open spec fn decodable(s: Seq<u8>, pos: int) -> bool {
        &&& u64::decodable(s, pos)
        &&& SsbhString::decodable(s, pos + 8)
        &&& u64::decodable(s, pos + 16)
    }

    open spec fn decodes_to(s: Seq<u8>, pos: int, v: Self) -> bool {
        &&& Self::decodable(s, pos)
        &&& u64::decodes_to(s, pos, v.param_id)
        &&& SsbhString::decodes_to(s, pos + 8, v.parameter_name)
    }

    fn read_at(bytes: &Vec<u8>, pos: u64) -> (r: Result<(Self, u64), SsbhError>) {
        let (param_id, p1) = u64::read_at(bytes, pos)?;
        let (parameter_name, p2) = SsbhString::read_at(bytes, p1)?;
        // The eight padding bytes must be present for the record to be
        // whole.
        let (_pad, p3) = u64::read_at(bytes, p2)?;
        Ok((MaterialParameter { param_id, parameter_name }, p3))
    }
}

impl SsbhWrite for MaterialParameter {
    open spec fn align_spec() -> u64 {
        8
    }

    fn alignment() -> u64 {
        8
    }

    fn write_ssbh(&self, w: &mut Writer, data_ptr: &mut u64) -> (r: Result<(), SsbhError>)
        ensures
            r.is_ok() ==> final(w).pos == old(w).pos + 24,
    {
        let pos = w.position();
        if pos > u64::MAX - 24 {
            return Err(SsbhError::OffsetOverflow);
        }
        if *data_ptr < pos + 24 {
            *data_ptr = pos + 24;
        }
        self.param_id.write_ssbh(w, data_ptr)?;
        self.parameter_name.write_ssbh(w, data_ptr)?;
        0u64.write_ssbh(w, data_ptr)?;
        Ok(())
    }
}

/// One shader program and the names of its stages and inputs.
#[derive(Debug, PartialEq, Eq, Clone)]
pub struct ShaderProgram {
    pub name: SsbhString,
    pub render_pass: SsbhString,
    pub vertex_shader: SsbhString,
    pub unk_shader1: SsbhString,
    pub unk_shader2: SsbhString,
    pub unk_shader3: SsbhString,
    pub pixel_shader: SsbhString,
    pub unk_shader4: SsbhString,
    pub vertex_attributes: SsbhArray<VertexAttribute>,
    pub material_parameters: SsbhArray<MaterialParameter>,
}

impl SsbhSize for ShaderProgram {
    open spec fn inline_size_spec() -> u64 {
        96
    }

    fn inline_size() -> u64 {
        96
    }

    proof fn lemma_inline_size_positive() {
    }
}

impl SsbhRead for ShaderProgram {
    open spec fn decodable(s: Seq<u8>, pos: int) -> bool {
        &&& SsbhString::decodable(s, pos)
        &&& SsbhString::decodable(s, pos + 8)
        &&& SsbhString::decodable(s, pos + 16)
        &&& SsbhString::decodable(s, pos + 24)
        &&& SsbhString::decodable(s, pos + 32)
        &&& SsbhString::decodable(s, pos + 40)
        &&& SsbhString::decodable(s, pos + 48)
        &&& SsbhString::decodable(s, pos + 56)
        &&& SsbhArray::<VertexAttribute>::decodable(s, pos + 64)
        &&& SsbhArray::<MaterialParameter>::decodable(s, pos + 80)
    }

    open spec fn decodes_to(s: Seq<u8>, pos: int, v: Self) -> bool {
        &&& SsbhString::decodes_to(s, pos, v.name)
        &&& SsbhString::decodes_to(s, pos + 8, v.render_pass)
        &&& SsbhString::decodes_to(s, pos + 16, v.vertex_shader)
        &&& SsbhString::decodes_to(s, pos + 24, v.unk_shader1)
        &&& SsbhString::decodes_to(s, pos + 32, v.unk_shader2)
        &&& SsbhString::decodes_to(s, pos + 40, v.unk_shader3)
        &&& SsbhString::decodes_to(s, pos + 48, v.pixel_shader)
        &&& SsbhString::decodes_to(s, pos + 56, v.unk_shader4)
        &&& SsbhArray::<VertexAttribute>::decodes_to(s, pos + 64, v.vertex_attributes)
        &&& SsbhArray::<MaterialParameter>::decodes_to(s, pos + 80, v.material_parameters)
    }

    fn read_at(bytes: &Vec<u8>, pos: u64) -> (r: Result<(Self, u64), SsbhError>) {
        let (name, p1) = SsbhString::read_at(bytes, pos)?;
        let (render_pass, p2) = SsbhString::read_at(bytes, p1)?;
        let (vertex_shader, p3) = SsbhString::read_at(bytes, p2)?;
        let (unk_shader1, p4) = SsbhString::read_at(bytes, p3)?;
        let (unk_shader2, p5) = SsbhString::read_at(bytes, p4)?;
        let (unk_shader3, p6) = SsbhString::read_at(bytes, p5)?;
        let (pixel_shader, p7) = SsbhString::read_at(bytes, p6)?;
        let (unk_shader4, p8) = SsbhString::read_at(bytes, p7)?;
        let (vertex_attributes, p9) = SsbhArray::<VertexAttribute>::read_at(bytes, p8)?;
        let (material_parameters, p10) = SsbhArray::<MaterialParameter>::read_at(bytes, p9)?;
        Ok(
            (
                ShaderProgram {
                    name,
                    render_pass,
                    vertex_shader,
                    unk_shader1,
                    unk_shader2,
                    unk_shader3,
                    pixel_shader,
                    unk_shader4,
                    vertex_attributes,
                    material_parameters,
                },
                p10,
            ),
        )
    }
}

impl SsbhWrite for ShaderProgram {
    open spec fn align_spec() -> u64 {
        8
    }

    fn alignment() -> u64 {
        8
    }

    fn write_ssbh(&self, w: &mut Writer, data_ptr: &mut u64) -> (r: Result<(), SsbhError>)
        ensures
            r.is_ok() ==> final(w).pos == old(w).pos + 96,
    {
        let pos = w.position();
        if pos > u64::MAX - 96 {
            return Err(SsbhError::OffsetOverflow);
        }
        if *data_ptr < pos + 96 {
            *data_ptr = pos + 96;
        }
        self.name.write_ssbh(w, data_ptr)?;
        self.render_pass.write_ssbh(w, data_ptr)?;
        self.vertex_shader.write_ssbh(w, data_ptr)?;
        self.unk_shader1.write_ssbh(w, data_ptr)?;
        self.unk_shader2.write_ssbh(w, data_ptr)?;
        self.unk_shader3.write_ssbh(w, data_ptr)?;
        self.pixel_shader.write_ssbh(w, data_ptr)?;
        self.unk_shader4.write_ssbh(w, data_ptr)?;
        self.vertex_attributes.write_ssbh(w, data_ptr)?;
        self.material_parameters.write_ssbh(w, data_ptr)?;
        Ok(())
    }
}

/// An entry of the trailing string list.
#[derive(Debug, PartialEq, Eq, Clone)]
pub struct UnkItem {
    pub text: SsbhString,
    pub unk1: RelPtr64<SsbhString>,
    pub unk2: u64,
}

impl SsbhSize for UnkItem {
    open spec fn inline_size_spec() -> u64 {
        24
    }

    fn inline_size() -> u64 {
        24
    }

    proof fn lemma_inline_size_positive() {
    }
}

impl SsbhRead for UnkItem {
    open spec fn decodable(s: Seq<u8>, pos: int) -> bool {
        &&& SsbhString::decodable(s, pos)
        &&& RelPtr64::<SsbhString>::decodable(s, pos + 8)
        &&& u64::decodable(s, pos + 16)
    }

    open spec fn decodes_to(s: Seq<u8>, pos: int, v: Self) -> bool {
        &&& SsbhString::decodes_to(s, pos, v.text)
        &&& RelPtr64::<SsbhString>::decodes_to(s, pos + 8, v.unk1)
        &&& u64::decodes_to(s, pos + 16, v.unk2)
    }

    fn read_at(bytes: &Vec<u8>, pos: u64) -> (r: Result<(Self, u64), SsbhError>) {
        let (text, p1) = SsbhString::read_at(bytes, pos)?;
        let (unk1, p2) = RelPtr64::<SsbhString>::read_at(bytes, p1)?;
        let (unk2, p3) = u64::read_at(bytes, p2)?;
        Ok((UnkItem { text, unk1, unk2 }, p3))
    }
}

impl SsbhWrite for UnkItem {
    open spec fn align_spec() -> u64 {
        8
    }

    fn alignment() -> u64 {
        8
    }

    fn write_ssbh(&self, w: &mut Writer, data_ptr: &mut u64) -> (r: Result<(), SsbhError>)
        ensures
            r.is_ok() ==> final(w).pos == old(w).pos + 24,
    {
        let pos = w.position();
        if pos > u64::MAX - 24 {
            return Err(SsbhError::OffsetOverflow);
        }
        if *data_ptr < pos + 24 {
            *data_ptr = pos + 24;
        }
        self.text.write_ssbh(w, data_ptr)?;
        self.unk1.write_ssbh(w, data_ptr)?;
        self.unk2.write_ssbh(w, data_ptr)?;
        Ok(())
    }
}

/// A shader effects library that describes shader programs and their
/// associated inputs.
#[derive(Debug, PartialEq, Eq, Clone)]
pub struct Nufx {
    pub major_version: u16,
    pub minor_version: u16,
    pub programs: SsbhArray<ShaderProgram>,
    pub unk_string_list: SsbhArray<UnkItem>,
}

impl SsbhSize for Nufx {
    open spec fn inline_size_spec() -> u64 {
        36
    }

    fn inline_size() -> u64 {
        36
    }

    proof fn lemma_inline_size_positive() {
    }
}

impl SsbhRead for Nufx {
    open spec fn decodable(s: Seq<u8>, pos: int) -> bool {
        &&& u16::decodable(s, pos)
        &&& u16::decodable(s, pos + 2)
        &&& SsbhArray::<ShaderProgram>::decodable(s, pos + 4)
        &&& SsbhArray::<UnkItem>::decodable(s, pos + 20)
    }

    open spec fn decodes_to(s: Seq<u8>, pos: int, v: Self) -> bool {
        &&& u16::decodes_to(s, pos, v.major_version)
        &&& u16::decodes_to(s, pos + 2, v.minor_version)
        &&& SsbhArray::<ShaderProgram>::decodes_to(s, pos + 4, v.programs)
        &&& SsbhArray::<UnkItem>::decodes_to(s, pos + 20, v.unk_string_list)
    }

    fn read_at(bytes: &Vec<u8>, pos: u64) -> (r: Result<(Self, u64), SsbhError>) {
        let (major_version, p1) = u16::read_at(bytes, pos)?;
        let (minor_version, p2) = u16::read_at(bytes, p1)?;
        let (programs, p3) = SsbhArray::<ShaderProgram>::read_at(bytes, p2)?;
        let (unk_string_list, p4) = SsbhArray::<UnkItem>::read_at(bytes, p3)?;
        Ok((Nufx { major_version, minor_version, programs, unk_string_list }, p4))
    }
}

impl SsbhWrite for Nufx {
    open spec fn align_spec() -> u64 {
        8
    }

    fn alignment() -> u64 {
        8
    }

    fn write_ssbh(&self, w: &mut Writer, data_ptr: &mut u64) -> (r: Result<(), SsbhError>)
        ensures
            r.is_ok() ==> final(w).pos == old(w).pos + 36,
    {
        let pos = w.position();
        if pos > u64::MAX - 36 {
            return Err(SsbhError::OffsetOverflow);
        }
        if *data_ptr < pos + 36 {
            *data_ptr = pos + 36;
        }
        self.major_version.write_ssbh(w, data_ptr)?;
        self.minor_version.write_ssbh(w, data_ptr)?;
        self.programs.write_ssbh(w, data_ptr)?;
        self.unk_string_list.write_ssbh(w, data_ptr)?;
        Ok(())
    }
}

} // verus!
