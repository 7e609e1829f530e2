//! The mesh data extraction layer: turns the raw, interleaved byte buffers
//! of a decoded mesh into typed per-vertex arrays.
//!
//! An attribute descriptor names a vertex-buffer slot, a byte offset inside
//! one stride of that slot, and an element type.  Element `i` of an
//! attribute lies at `slot base + descriptor offset + i * stride`; the
//! stride may exceed the element's natural size, which is how several
//! attributes interleave in one buffer.  Every component is promoted to the
//! bit pattern of a 32-bit floating-point number.

use crate::arrays::SsbhByteBuffer;
use crate::bytes::{i16_at, read_i16, read_u16, read_u32, read_u8, u16_at, u32_at};
use crate::error::SsbhError;
use crate::formats::mesh::{
    AttributeDataType, AttributeDataTypeV8, AttributeUsage, Mesh, MeshAttributeV10,
    MeshAttributeV8, MeshAttributes, MeshObject, MeshRiggingGroup,
};
use crate::vectors::{Vector2, Vector3, Vector4};
use vstd::prelude::*;

verus! {

/// The element type of one attribute component, with the version-specific
/// code tables already normalized away.
#[derive(Debug, PartialEq, Eq, Structural, Clone, Copy)]
pub enum DataType {
    /// An 8-bit unsigned component.
    Byte,
    /// A 32-bit floating-point component.
    Float,
    /// A 16-bit floating-point component.
    HalfFloat,
}

/// The normalized element type of a version 1.10 code.
pub open spec fn data_type_of(value: AttributeDataType) -> DataType {
    match value {
        AttributeDataType::Float3 => DataType::Float,
        AttributeDataType::Byte4 => DataType::Byte,
        AttributeDataType::HalfFloat4 => DataType::HalfFloat,
        AttributeDataType::HalfFloat2 => DataType::HalfFloat,
    }
}

/// The normalized element type of a version 1.8 code.
pub open spec fn data_type_of_v8(value: AttributeDataTypeV8) -> DataType {
    match value {
        AttributeDataTypeV8::Float3 => DataType::Float,
        AttributeDataTypeV8::Float2 => DataType::Float,
        AttributeDataTypeV8::Byte4 => DataType::Byte,
        AttributeDataTypeV8::HalfFloat4 => DataType::HalfFloat,
    }
}

impl From<AttributeDataType> for DataType {
    fn from(value: AttributeDataType) -> (r: Self) {
        match value {
            AttributeDataType::Float3 => DataType::Float,
            AttributeDataType::Byte4 => DataType::Byte,
            AttributeDataType::HalfFloat4 => DataType::HalfFloat,
            AttributeDataType::HalfFloat2 => DataType::HalfFloat,
        }
    }
}

impl vstd::std_specs::convert::FromSpecImpl<AttributeDataType> for DataType {
    open spec fn obeys_from_spec() -> bool {
        true
    }

    open spec fn from_spec(value: AttributeDataType) -> Self {
        data_type_of(value)
    }
}

impl From<AttributeDataTypeV8> for DataType {
    fn from(value: AttributeDataTypeV8) -> (r: Self) {
        match value {
            AttributeDataTypeV8::Float3 => DataType::Float,
            AttributeDataTypeV8::Float2 => DataType::Float,
            AttributeDataTypeV8::Byte4 => DataType::Byte,
            AttributeDataTypeV8::HalfFloat4 => DataType::HalfFloat,
        }
    }
}

impl vstd::std_specs::convert::FromSpecImpl<AttributeDataTypeV8> for DataType {
    open spec fn obeys_from_spec() -> bool {
        true
    }

    open spec fn from_spec(value: AttributeDataTypeV8) -> Self {
        data_type_of_v8(value)
    }
}

/// One record of a bone weight stream: a vertex index and the bit pattern
/// of its 32-bit floating-point weight.
#[derive(Debug, PartialEq, Eq, Structural, Clone, Copy)]
pub struct VertexWeight {
    pub vertex_index: i16,
    pub vertex_weight: u32,
}

/// The bit pattern of the 32-bit floating-point number with the same value
/// as the unsigned byte `b`; the promotion is exact for every byte.
pub open spec fn float_bits_of_byte(b: u8) -> u32 {
    if b == 0 {
        0
    } else if b >= 128 {
        (134 * 0x800000 + (b - 128) * 0x10000) as u32
    } else if b >= 64 {
        (133 * 0x800000 + (b - 64) * 0x20000) as u32
    } else if b >= 32 {
        (132 * 0x800000 + (b - 32) * 0x40000) as u32
    } else if b >= 16 {
        (131 * 0x800000 + (b - 16) * 0x80000) as u32
    } else if b >= 8 {
        (130 * 0x800000 + (b - 8) * 0x100000) as u32
    } else if b >= 4 {
        (129 * 0x800000 + (b - 4) * 0x200000) as u32
    } else if b >= 2 {
        (128 * 0x800000 + (b - 2) * 0x400000) as u32
    } else {
        (127 * 0x800000) as u32
    }
}

/// Executable mirror of `float_bits_of_byte`.
pub fn byte_to_float_bits(b: u8) -> (r: u32)
    ensures
        r == float_bits_of_byte(b),
{
    if b == 0 {
        0
    } else if b >= 128 {
        134 * 0x800000 + (b as u32 - 128) * 0x10000
    } else if b >= 64 {
        133 * 0x800000 + (b as u32 - 64) * 0x20000
    } else if b >= 32 {
        132 * 0x800000 + (b as u32 - 32) * 0x40000
    } else if b >= 16 {
        131 * 0x800000 + (b as u32 - 16) * 0x80000
    } else if b >= 8 {
        130 * 0x800000 + (b as u32 - 8) * 0x100000
    } else if b >= 4 {
        129 * 0x800000 + (b as u32 - 4) * 0x200000
    } else if b >= 2 {
        128 * 0x800000 + (b as u32 - 2) * 0x400000
    } else {
        127 * 0x800000
    }
}

/// The bit pattern of the 32-bit floating-point number a 16-bit
/// floating-point bit pattern promotes to: the exponent is re-biased, the
/// mantissa widened, subnormals normalized, and infinities and NaNs mapped
/// to their 32-bit counterparts.  The promotion is exact for every finite
/// half-precision value.
pub open spec fn half_to_float_bits(h: u16) -> u32 {
    let s = (h as int) / 32768;
    let e = ((h as int) / 1024) % 32;
    let m = (h as int) % 1024;
    if e == 31 {
        (s * 0x80000000 + 255 * 0x800000 + m * 0x2000) as u32
    } else if e > 0 {
        (s * 0x80000000 + (e + 112) * 0x800000 + m * 0x2000) as u32
    } else if m == 0 {
        (s * 0x80000000) as u32
    } else if m >= 512 {
        (s * 0x80000000 + 112 * 0x800000 + (m - 512) * 0x4000) as u32
    } else if m >= 256 {
        (s * 0x80000000 + 111 * 0x800000 + (m - 256) * 0x8000) as u32
    } else if m >= 128 {
        (s * 0x80000000 + 110 * 0x800000 + (m - 128) * 0x10000) as u32
    } else if m >= 64 {
        (s * 0x80000000 + 109 * 0x800000 + (m - 64) * 0x20000) as u32
    } else if m >= 32 {
        (s * 0x80000000 + 108 * 0x800000 + (m - 32) * 0x40000) as u32
    } else if m >= 16 {
        (s * 0x80000000 + 107 * 0x800000 + (m - 16) * 0x80000) as u32
    } else if m >= 8 {
        (s * 0x80000000 + 106 * 0x800000 + (m - 8) * 0x100000) as u32
    } else if m >= 4 {
        (s * 0x80000000 + 105 * 0x800000 + (m - 4) * 0x200000) as u32
    } else if m >= 2 {
        (s * 0x80000000 + 104 * 0x800000 + (m - 2) * 0x400000) as u32
    } else {
        (s * 0x80000000 + 103 * 0x800000) as u32
    }
}

/// Executable mirror of `half_to_float_bits`.
pub fn half_bits_to_float_bits(h: u16) -> (r: u32)
    ensures
        r == half_to_float_bits(h),
{
    let s: u32 = (h as u32) / 32768;
    let e: u32 = ((h as u32) / 1024) % 32;
    let m: u32 = (h as u32) % 1024;
    if e == 31 {
        s * 0x80000000 + 255 * 0x800000 + m * 0x2000
    } else if e > 0 {
        s * 0x80000000 + (e + 112) * 0x800000 + m * 0x2000
    } else if m == 0 {
        s * 0x80000000
    } else if m >= 512 {
        s * 0x80000000 + 112 * 0x800000 + (m - 512) * 0x4000
    } else if m >= 256 {
        s * 0x80000000 + 111 * 0x800000 + (m - 256) * 0x8000
    } else if m >= 128 {
        s * 0x80000000 + 110 * 0x800000 + (m - 128) * 0x10000
    } else if m >= 64 {
        s * 0x80000000 + 109 * 0x800000 + (m - 64) * 0x20000
    } else if m >= 32 {
        s * 0x80000000 + 108 * 0x800000 + (m - 32) * 0x40000
    } else if m >= 16 {
        s * 0x80000000 + 107 * 0x800000 + (m - 16) * 0x80000
    } else if m >= 8 {
        s * 0x80000000 + 106 * 0x800000 + (m - 8) * 0x100000
    } else if m >= 4 {
        s * 0x80000000 + 105 * 0x800000 + (m - 4) * 0x200000
    } else if m >= 2 {
        s * 0x80000000 + 104 * 0x800000 + (m - 2) * 0x400000
    } else {
        s * 0x80000000 + 103 * 0x800000
    }
}

/// The footprint of one stored component of the given element type.
pub open spec fn comp_size(dt: DataType) -> u64 {
    match dt {
        DataType::Byte => 1,
        DataType::Float => 4,
        DataType::HalfFloat => 2,
    }
}

/// The promoted bit pattern of the component of type `dt` stored at `pos`.
pub open spec fn component_at(s: Seq<u8>, pos: int, dt: DataType) -> u32 {
    match dt {
        DataType::Byte => float_bits_of_byte(s[pos]),
        DataType::Float => u32_at(s, pos),
        DataType::HalfFloat => half_to_float_bits(u16_at(s, pos)),
    }
}

/// Reads one component of type `dt` at `pos`, promoted to 32 bits.
fn read_component(buffer: &Vec<u8>, pos: u64, dt: DataType) -> (r: Result<u32, SsbhError>)
    ensures
        buffer@.len() <= usize::MAX,
        match r {
            Ok(v) => pos + comp_size(dt) <= buffer@.len() && v == component_at(
                buffer@,
                pos as int,
                dt,
            ),
            Err(e) => pos + comp_size(dt) > buffer@.len() && e == SsbhError::Truncated,
        },
{
    match dt {
        DataType::Byte => {
            let b = read_u8(buffer, pos)?;
            Ok(byte_to_float_bits(b))
        },
        DataType::Float => read_u32(buffer, pos),
        DataType::HalfFloat => {
            let h = read_u16(buffer, pos)?;
            Ok(half_bits_to_float_bits(h))
        },
    }
}

/// The two-component element of type `dt` stored at `pos`.
pub open spec fn element2_at(s: Seq<u8>, pos: int, dt: DataType) -> Vector2 {
    Vector2 {
        x: component_at(s, pos, dt),
        y: component_at(s, pos + comp_size(dt), dt),
    }
}

/// The three-component element of type `dt` stored at `pos`.
pub open spec fn element3_at(s: Seq<u8>, pos: int, dt: DataType) -> Vector3 {
    Vector3 {
        x: component_at(s, pos, dt),
        y: component_at(s, pos + comp_size(dt), dt),
        z: component_at(s, pos + 2 * comp_size(dt), dt),
    }
}

/// The four-component element of type `dt` stored at `pos`.
pub open spec fn element4_at(s: Seq<u8>, pos: int, dt: DataType) -> Vector4 {
    Vector4 {
        x: component_at(s, pos, dt),
        y: component_at(s, pos + comp_size(dt), dt),
        z: component_at(s, pos + 2 * comp_size(dt), dt),
        w: component_at(s, pos + 3 * comp_size(dt), dt),
    }
}

/// How one attribute reads its buffer: the slot, the byte offset within one
/// stride, and the element type, normalized over both descriptor shapes.
#[derive(Debug, PartialEq, Eq, Structural, Clone, Copy)]
pub struct BufferAccess {
    /// The vertex-buffer slot the attribute reads from.
    pub index: u64,
    /// The byte offset within one stride of that slot.
    pub offset: u64,
    /// The element type of one component.
    pub data_type: DataType,
}

/// The buffer access of a version 1.10 descriptor.
pub open spec fn access_of_v10(a: MeshAttributeV10) -> BufferAccess {
    BufferAccess {
        index: a.buffer_index as u64,
        offset: a.buffer_offset as u64,
        data_type: data_type_of(a.data_type),
    }
}

/// The buffer access of a version 1.8 descriptor.
pub open spec fn access_of_v8(a: MeshAttributeV8) -> BufferAccess {
    BufferAccess {
        index: a.buffer_index as u64,
        offset: a.buffer_offset as u64,
        data_type: data_type_of_v8(a.data_type),
    }
}

/// The buffer accesses of the version 1.10 descriptors with the given
/// usage, in descriptor order.
pub open spec fn accesses_of_v10(s: Seq<MeshAttributeV10>, usage: AttributeUsage) -> Seq<
    BufferAccess,
>
    decreases s.len(),
{
    if s.len() == 0 {
        Seq::empty()
    } else {
        accesses_of_v10(s.drop_last(), usage) + if s.last().usage == usage {
            seq![access_of_v10(s.last())]
        } else {
            Seq::empty()
        }
    }
}

/// The buffer accesses of the version 1.8 descriptors with the given usage,
/// in descriptor order.
pub open spec fn accesses_of_v8(s: Seq<MeshAttributeV8>, usage: AttributeUsage) -> Seq<
    BufferAccess,
>
    decreases s.len(),
{
    if s.len() == 0 {
        Seq::empty()
    } else {
        accesses_of_v8(s.drop_last(), usage) + if s.last().usage == usage {
            seq![access_of_v8(s.last())]
        } else {
            Seq::empty()
        }
    }
}

/// The buffer accesses of a mesh object's descriptors with the given usage,
/// whatever the descriptor shape.
pub open spec fn attribute_accesses(attrs: MeshAttributes, usage: AttributeUsage) -> Seq<
    BufferAccess,
> {
    match attrs {
        MeshAttributes::AttributesV8(arr) => accesses_of_v8(arr.elements@, usage),
        MeshAttributes::AttributesV10(arr) => accesses_of_v10(arr.elements@, usage),
    }
}

/// Filters a mesh object's attribute descriptors by usage and normalizes
/// each hit to a buffer access, keeping descriptor order.
pub fn get_attributes(mesh_object: &MeshObject, usage: AttributeUsage) -> (r: Vec<BufferAccess>)
    ensures
        r@ == attribute_accesses(mesh_object.attributes, usage),
{
    let mut r: Vec<BufferAccess> = Vec::new();
    match &mesh_object.attributes {
        MeshAttributes::AttributesV8(arr) => {
            let n = arr.elements.len();
            let mut i: usize = 0;
            while i < n
                invariant
                    n == arr.elements@.len(),
                    i <= n,
                    r@ == accesses_of_v8(arr.elements@.subrange(0, i as int), usage),
                decreases n - i,
            {
                let a = &arr.elements[i];
                proof {
                    assert(arr.elements@.subrange(0, i + 1).drop_last() =~= arr.elements@.subrange(
                        0,
                        i as int,
                    ));
                    assert(arr.elements@.subrange(0, i + 1).last() == arr.elements@[i as int]);
                }
                if a.usage == usage {
                    r.push(
                        BufferAccess {
                            index: a.buffer_index as u64,
                            offset: a.buffer_offset as u64,
                            data_type: DataType::from(a.data_type),
                        },
                    );
                }
                i = i + 1;
            }
            proof {
                assert(arr.elements@.subrange(0, n as int) =~= arr.elements@);
            }
        },
        MeshAttributes::AttributesV10(arr) => {
            let n = arr.elements.len();
            let mut i: usize = 0;
            while i < n
                invariant
                    n == arr.elements@.len(),
                    i <= n,
                    r@ == accesses_of_v10(arr.elements@.subrange(0, i as int), usage),
                decreases n - i,
            {
                let a = &arr.elements[i];
                proof {
                    assert(arr.elements@.subrange(0, i + 1).drop_last() =~= arr.elements@.subrange(
                        0,
                        i as int,
                    ));
                    assert(arr.elements@.subrange(0, i + 1).last() == arr.elements@[i as int]);
                }
                if a.usage == usage {
                    r.push(
                        BufferAccess {
                            index: a.buffer_index as u64,
                            offset: a.buffer_offset as u64,
                            data_type: DataType::from(a.data_type),
                        },
                    );
                }
                i = i + 1;
            }
            proof {
                assert(arr.elements@.subrange(0, n as int) =~= arr.elements@);
            }
        },
    }
    r
}

/// The stride of the given vertex-buffer slot of a mesh object.
pub open spec fn slot_stride(obj: MeshObject, index: u64) -> u64 {
    if index == 0 {
        obj.stride as u64
    } else {
        obj.stride2 as u64
    }
}

/// The base vertex offset of the given vertex-buffer slot of a mesh object.
pub open spec fn slot_offset(obj: MeshObject, index: u64) -> u64 {
    if index == 0 {
        obj.vertex_offset as u64
    } else {
        obj.vertex_offset2 as u64
    }
}

/// The byte position of element `i` of an attribute column that starts at
/// `base` with the given stride.
pub open spec fn col_pos(base: int, i: int, stride: int) -> int {
    base + i * stride
}

/// Whether every element of a `count`-element attribute column lies inside a
/// buffer of `len` bytes: element `i`'s `ncomp` components occupy the bytes
/// from `base + i * stride` on.
pub open spec fn elements_in_bounds(
    len: int,
    base: int,
    stride: int,
    count: int,
    ncomp: int,
    dt: DataType,
) -> bool {
    forall|i: int|
        0 <= i < count ==> #[trigger] col_pos(base, i, stride) + ncomp * comp_size(dt) <= len
}

/// A factor above `u64::MAX / stride` pushes the product past `u64::MAX`.
proof fn lemma_mul_div_overflow(i: int, stride: int)
    requires
        stride >= 1,
        i > u64::MAX as int / stride,
    ensures
        i * stride > u64::MAX,
{
    vstd::arithmetic::div_mod::lemma_fundamental_div_mod(u64::MAX as int, stride);
    vstd::arithmetic::div_mod::lemma_mod_bound(u64::MAX as int, stride);
    let q = u64::MAX as int / stride;
    assert(i * stride >= (q + 1) * stride) by (nonlinear_arith)
        requires
            i >= q + 1,
            stride >= 1,
    ;
    assert((q + 1) * stride == q * stride + stride) by (nonlinear_arith);
}

/// Whether one attribute access can be read in full from the mesh's
/// buffers: its slot exists, its base position fits, and every element of
/// the column lies inside the slot's buffer.
pub open spec fn attribute_readable(
    mesh: Mesh,
    obj: MeshObject,
    a: BufferAccess,
    ncomp: int,
) -> bool {
    &&& a.index <= 1
    &&& a.index < mesh.vertex_buffers.elements@.len()
    &&& a.offset + slot_offset(obj, a.index) <= u64::MAX
    &&& elements_in_bounds(
        mesh.vertex_buffers.elements@[a.index as int].elements@.len() as int,
        a.offset + slot_offset(obj, a.index),
        slot_stride(obj, a.index) as int,
        obj.vertex_count as int,
        ncomp,
        a.data_type,
    )
}

/// What a successfully decoded two-component attribute array holds: element
/// `i` read at the attribute's offset plus `i` strides into the slot.
pub open spec fn elements2_ok(
    mesh: Mesh,
    obj: MeshObject,
    a: BufferAccess,
    out: Seq<Vector2>,
) -> bool {
    &&& a.index <= 1
    &&& a.index < mesh.vertex_buffers.elements@.len()
    &&& out.len() == obj.vertex_count
    &&& forall|i: int|
        0 <= i < out.len() ==> out[i] == element2_at(
            mesh.vertex_buffers.elements@[a.index as int].elements@,
            a.offset + slot_offset(obj, a.index) + i * slot_stride(obj, a.index),
            a.data_type,
        )
}

/// What a successfully decoded three-component attribute array holds.
pub open spec fn elements3_ok(
    mesh: Mesh,
    obj: MeshObject,
    a: BufferAccess,
    out: Seq<Vector3>,
) -> bool {
    &&& a.index <= 1
    &&& a.index < mesh.vertex_buffers.elements@.len()
    &&& out.len() == obj.vertex_count
    &&& forall|i: int|
        0 <= i < out.len() ==> out[i] == element3_at(
            mesh.vertex_buffers.elements@[a.index as int].elements@,
            a.offset + slot_offset(obj, a.index) + i * slot_stride(obj, a.index),
            a.data_type,
        )
}

/// What a successfully decoded four-component attribute array holds.
pub open spec fn elements4_ok(
    mesh: Mesh,
    obj: MeshObject,
    a: BufferAccess,
    out: Seq<Vector4>,
) -> bool {
    &&& a.index <= 1
    &&& a.index < mesh.vertex_buffers.elements@.len()
    &&& out.len() == obj.vertex_count
    &&& forall|i: int|
        0 <= i < out.len() ==> out[i] == element4_at(
            mesh.vertex_buffers.elements@[a.index as int].elements@,
            a.offset + slot_offset(obj, a.index) + i * slot_stride(obj, a.index),
            a.data_type,
        )
}

/// Resolves a buffer access against a mesh object's slots: the slot must be
/// 0 or 1 and must exist among the mesh's vertex buffers.
fn resolve_access<'a>(mesh: &'a Mesh, obj: &MeshObject, a: &BufferAccess) -> (r: Result<
    (&'a SsbhByteBuffer, u64, u64),
    SsbhError,
>)
    ensures
        match r {
            Ok((buffer, base, stride)) => {
                &&& a.index <= 1
                &&& a.index < mesh.vertex_buffers.elements@.len()
                &&& *buffer == mesh.vertex_buffers.elements@[a.index as int]
                &&& base == a.offset + slot_offset(*obj, a.index)
                &&& stride == slot_stride(*obj, a.index)
            },
            Err(e) => (e == SsbhError::UnsupportedBufferIndex && a.index > 1) || (e
                == SsbhError::Truncated && a.index <= 1 && a.index
                >= mesh.vertex_buffers.elements@.len()) || (e == SsbhError::OffsetOverflow
                && a.index <= 1 && a.index < mesh.vertex_buffers.elements@.len() && a.offset
                + slot_offset(*obj, a.index) > u64::MAX),
        },
{
    if a.index > 1 {
        return Err(SsbhError::UnsupportedBufferIndex);
    }
    if a.index >= mesh.vertex_buffers.elements.len() as u64 {
        return Err(SsbhError::Truncated);
    }
    let voffset = if a.index == 0 {
        obj.vertex_offset
    } else {
        obj.vertex_offset2
    };
    let stride = if a.index == 0 {
        obj.stride as u64
    } else {
        obj.stride2 as u64
    };
    if a.offset > u64::MAX - voffset as u64 {
        return Err(SsbhError::OffsetOverflow);
    }
    let base = a.offset + voffset as u64;
    let buffer = &mesh.vertex_buffers.elements[a.index as usize];
    Ok((buffer, base, stride))
}

/// Reads `count` two-component elements at `base + i * stride`;
/// succeeds exactly when every element of the column lies inside the buffer.
#[verifier::rlimit(50)]
fn read_elements2(buffer: &Vec<u8>, base: u64, stride: u64, count: u32, dt: DataType) -> (r: Result<
    Vec<Vector2>,
    SsbhError,
>)
    ensures
        match r {
            Ok(v) => {
                &&& elements_in_bounds(
                    buffer@.len() as int,
                    base as int,
                    stride as int,
                    count as int,
                    2,
                    dt,
                )
                &&& v@.len() == count
                &&& forall|i: int|
                    0 <= i < v@.len() ==> v@[i] == element2_at(buffer@, base + i * stride, dt)
            },
            Err(e) => !elements_in_bounds(
                buffer@.len() as int,
                base as int,
                stride as int,
                count as int,
                2,
                dt,
            ) && (e == SsbhError::Truncated || e == SsbhError::OffsetOverflow),
        },
{
    let n_bytes = buffer.len();
    let ghost blen = buffer@.len() as int;
    proof {
        assert(blen == n_bytes as int);
    }
    let mut v: Vec<Vector2> = Vec::new();
    let mut i: u32 = 0;
    while i < count
        invariant
            blen == buffer@.len(),
            blen <= usize::MAX,
            i <= count,
            v@.len() == i,
            forall|j: int| 0 <= j < v@.len() ==> v@[j] == element2_at(buffer@, base + j * stride, dt),
            forall|j: int|
                0 <= j < i ==> #[trigger] col_pos(base as int, j, stride as int) + 2 * comp_size(
                    dt,
                ) <= blen,
        decreases count - i,
    {
        if stride > 0 && i as u64 > u64::MAX / stride {
            proof {
                lemma_mul_div_overflow(i as int, stride as int);
                assert(col_pos(base as int, i as int, stride as int) + 2 * comp_size(dt) > blen);
            }
            return Err(SsbhError::OffsetOverflow);
        }
        proof {
            if stride > 0 {
                vstd::arithmetic::div_mod::lemma_fundamental_div_mod(u64::MAX as int, stride as int);
                vstd::arithmetic::div_mod::lemma_mod_bound(u64::MAX as int, stride as int);
                assert((i as u64) * stride <= (u64::MAX / stride) * stride) by (nonlinear_arith)
                    requires
                        i as u64 <= u64::MAX / stride,
                        stride >= 1,
                ;
            }
        }
        let step = (i as u64) * stride;
        if step > u64::MAX - base {
            proof {
                assert(col_pos(base as int, i as int, stride as int) + 2 * comp_size(dt) > blen);
            }
            return Err(SsbhError::OffsetOverflow);
        }
        let pos = base + step;
        let size = match dt {
            DataType::Byte => 1u64,
            DataType::Float => 4u64,
            DataType::HalfFloat => 2u64,
        };
        if pos > u64::MAX - 2 * size {
            proof {
                assert(col_pos(base as int, i as int, stride as int) + 2 * comp_size(dt) > blen);
            }
            return Err(SsbhError::OffsetOverflow);
        }
        let x = match read_component(buffer, pos, dt) {
            Ok(c) => c,
            Err(e) => {
                proof {
                    assert(col_pos(base as int, i as int, stride as int) + 2 * comp_size(dt)
                        > blen);
                }
                return Err(e);
            },
        };
        let y = match read_component(buffer, pos + 1 * size, dt) {
            Ok(c) => c,
            Err(e) => {
                proof {
                    assert(col_pos(base as int, i as int, stride as int) + 2 * comp_size(dt)
                        > blen);
                }
                return Err(e);
            },
        };
        v.push(Vector2 { x, y });
        proof {
            assert(col_pos(base as int, i as int, stride as int) + 2 * comp_size(dt) <= blen);
        }
        i = i + 1;
    }
    Ok(v)
}

/// Reads `count` three-component elements at `base + i * stride`;
/// succeeds exactly when every element of the column lies inside the buffer.
#[verifier::rlimit(50)]
fn read_elements3(buffer: &Vec<u8>, base: u64, stride: u64, count: u32, dt: DataType) -> (r: Result<
    Vec<Vector3>,
    SsbhError,
>)
    ensures
        match r {
            Ok(v) => {
                &&& elements_in_bounds(
                    buffer@.len() as int,
                    base as int,
                    stride as int,
                    count as int,
                    3,
                    dt,
                )
                &&& v@.len() == count
                &&& forall|i: int|
                    0 <= i < v@.len() ==> v@[i] == element3_at(buffer@, base + i * stride, dt)
            },
            Err(e) => !elements_in_bounds(
                buffer@.len() as int,
                base as int,
                stride as int,
                count as int,
                3,
                dt,
            ) && (e == SsbhError::Truncated || e == SsbhError::OffsetOverflow),
        },
{
    let n_bytes = buffer.len();
    let ghost blen = buffer@.len() as int;
    proof {
        assert(blen == n_bytes as int);
    }
    let mut v: Vec<Vector3> = Vec::new();
    let mut i: u32 = 0;
    while i < count
        invariant
            blen == buffer@.len(),
            blen <= usize::MAX,
            i <= count,
            v@.len() == i,
            forall|j: int| 0 <= j < v@.len() ==> v@[j] == element3_at(buffer@, base + j * stride, dt),
            forall|j: int|
                0 <= j < i ==> #[trigger] col_pos(base as int, j, stride as int) + 3 * comp_size(
                    dt,
                ) <= blen,
        decreases count - i,
    {
        if stride > 0 && i as u64 > u64::MAX / stride {
            proof {
                lemma_mul_div_overflow(i as int, stride as int);
                assert(col_pos(base as int, i as int, stride as int) + 3 * comp_size(dt) > blen);
            }
            return Err(SsbhError::OffsetOverflow);
        }
        proof {
            if stride > 0 {
                vstd::arithmetic::div_mod::lemma_fundamental_div_mod(u64::MAX as int, stride as int);
                vstd::arithmetic::div_mod::lemma_mod_bound(u64::MAX as int, stride as int);
                assert((i as u64) * stride <= (u64::MAX / stride) * stride) by (nonlinear_arith)
                    requires
                        i as u64 <= u64::MAX / stride,
                        stride >= 1,
                ;
            }
        }
        let step = (i as u64) * stride;
        if step > u64::MAX - base {
            proof {
                assert(col_pos(base as int, i as int, stride as int) + 3 * comp_size(dt) > blen);
            }
            return Err(SsbhError::OffsetOverflow);
        }
        let pos = base + step;
        let size = match dt {
            DataType::Byte => 1u64,
            DataType::Float => 4u64,
            DataType::HalfFloat => 2u64,
        };
        if pos > u64::MAX - 3 * size {
            proof {
                assert(col_pos(base as int, i as int, stride as int) + 3 * comp_size(dt) > blen);
            }
            return Err(SsbhError::OffsetOverflow);
        }
        let x = match read_component(buffer, pos, dt) {
            Ok(c) => c,
            Err(e) => {
                proof {
                    assert(col_pos(base as int, i as int, stride as int) + 3 * comp_size(dt)
                        > blen);
                }
                return Err(e);
            },
        };
        let y = match read_component(buffer, pos + 1 * size, dt) {
            Ok(c) => c,
            Err(e) => {
                proof {
                    assert(col_pos(base as int, i as int, stride as int) + 3 * comp_size(dt)
                        > blen);
                }
                return Err(e);
            },
        };
        let z = match read_component(buffer, pos + 2 * size, dt) {
            Ok(c) => c,
            Err(e) => {
                proof {
                    assert(col_pos(base as int, i as int, stride as int) + 3 * comp_size(dt)
                        > blen);
                }
                return Err(e);
            },
        };
        v.push(Vector3 { x, y, z });
        proof {
            assert(col_pos(base as int, i as int, stride as int) + 3 * comp_size(dt) <= blen);
        }
        i = i + 1;
    }
    Ok(v)
}

/// Reads `count` four-component elements at `base + i * stride`;
/// succeeds exactly when every element of the column lies inside the buffer.
#[verifier::rlimit(50)]
fn read_elements4(buffer: &Vec<u8>, base: u64, stride: u64, count: u32, dt: DataType) -> (r: Result<
    Vec<Vector4>,
    SsbhError,
>)
    ensures
        match r {
            Ok(v) => {
                &&& elements_in_bounds(
                    buffer@.len() as int,
                    base as int,
                    stride as int,
                    count as int,
                    4,
                    dt,
                )
                &&& v@.len() == count
                &&& forall|i: int|
                    0 <= i < v@.len() ==> v@[i] == element4_at(buffer@, base + i * stride, dt)
            },
            Err(e) => !elements_in_bounds(
                buffer@.len() as int,
                base as int,
                stride as int,
                count as int,
                4,
                dt,
            ) && (e == SsbhError::Truncated || e == SsbhError::OffsetOverflow),
        },
{
    let n_bytes = buffer.len();
    let ghost blen = buffer@.len() as int;
    proof {
        assert(blen == n_bytes as int);
    }
    let mut v: Vec<Vector4> = Vec::new();
    let mut i: u32 = 0;
    while i < count
        invariant
            blen == buffer@.len(),
            blen <= usize::MAX,
            i <= count,
            v@.len() == i,
            forall|j: int| 0 <= j < v@.len() ==> v@[j] == element4_at(buffer@, base + j * stride, dt),
            forall|j: int|
                0 <= j < i ==> #[trigger] col_pos(base as int, j, stride as int) + 4 * comp_size(
                    dt,
                ) <= blen,
        decreases count - i,
    {
        if stride > 0 && i as u64 > u64::MAX / stride {
            proof {
                lemma_mul_div_overflow(i as int, stride as int);
                assert(col_pos(base as int, i as int, stride as int) + 4 * comp_size(dt) > blen);
            }
            return Err(SsbhError::OffsetOverflow);
        }
        proof {
            if stride > 0 {
                vstd::arithmetic::div_mod::lemma_fundamental_div_mod(u64::MAX as int, stride as int);
                vstd::arithmetic::div_mod::lemma_mod_bound(u64::MAX as int, stride as int);
                assert((i as u64) * stride <= (u64::MAX / stride) * stride) by (nonlinear_arith)
                    requires
                        i as u64 <= u64::MAX / stride,
                        stride >= 1,
                ;
            }
        }
        let step = (i as u64) * stride;
        if step > u64::MAX - base {
            proof {
                assert(col_pos(base as int, i as int, stride as int) + 4 * comp_size(dt) > blen);
            }
            return Err(SsbhError::OffsetOverflow);
        }
        let pos = base + step;
        let size = match dt {
            DataType::Byte => 1u64,
            DataType::Float => 4u64,
            DataType::HalfFloat => 2u64,
        };
        if pos > u64::MAX - 4 * size {
            proof {
                assert(col_pos(base as int, i as int, stride as int) + 4 * comp_size(dt) > blen);
            }
            return Err(SsbhError::OffsetOverflow);
        }
        let x = match read_component(buffer, pos, dt) {
            Ok(c) => c,
            Err(e) => {
                proof {
                    assert(col_pos(base as int, i as int, stride as int) + 4 * comp_size(dt)
                        > blen);
                }
                return Err(e);
            },
        };
        let y = match read_component(buffer, pos + 1 * size, dt) {
            Ok(c) => c,
            Err(e) => {
                proof {
                    assert(col_pos(base as int, i as int, stride as int) + 4 * comp_size(dt)
                        > blen);
                }
                return Err(e);
            },
        };
        let z = match read_component(buffer, pos + 2 * size, dt) {
            Ok(c) => c,
            Err(e) => {
                proof {
                    assert(col_pos(base as int, i as int, stride as int) + 4 * comp_size(dt)
                        > blen);
                }
                return Err(e);
            },
        };
        let w = match read_component(buffer, pos + 3 * size, dt) {
            Ok(c) => c,
            Err(e) => {
                proof {
                    assert(col_pos(base as int, i as int, stride as int) + 4 * comp_size(dt)
                        > blen);
                }
                return Err(e);
            },
        };
        v.push(Vector4 { x, y, z, w });
        proof {
            assert(col_pos(base as int, i as int, stride as int) + 4 * comp_size(dt) <= blen);
        }
        i = i + 1;
    }
    Ok(v)
}

/// Reads the vertex positions for the specified mesh object from the first
/// position attribute; a mesh object without one cannot provide positions.
pub fn read_positions(mesh: &Mesh, mesh_object: &MeshObject) -> (r: Result<Vec<Vector3>, SsbhError>)
    ensures
        match r {
            Ok(v) => {
                let accs = attribute_accesses(mesh_object.attributes, AttributeUsage::Position);
                &&& accs.len() > 0
                &&& attribute_readable(*mesh, *mesh_object, accs[0], 3)
                &&& elements3_ok(*mesh, *mesh_object, accs[0], v@)
            },
            Err(e) => e == SsbhError::Truncated || e == SsbhError::UnsupportedBufferIndex || e
                == SsbhError::OffsetOverflow,
        },
        attribute_accesses(mesh_object.attributes, AttributeUsage::Position).len() == 0 ==> r
            == Err::<Vec<Vector3>, SsbhError>(SsbhError::Truncated),
        ({
            let accs = attribute_accesses(mesh_object.attributes, AttributeUsage::Position);
            accs.len() > 0 && attribute_readable(*mesh, *mesh_object, accs[0], 3)
        }) ==> r.is_ok(),
        ({
            let accs = attribute_accesses(mesh_object.attributes, AttributeUsage::Position);
            accs.len() > 0 && accs[0].index > 1
        }) ==> r == Err::<Vec<Vector3>, SsbhError>(SsbhError::UnsupportedBufferIndex),
{
    let attributes = get_attributes(mesh_object, AttributeUsage::Position);
    if attributes.len() == 0 {
        return Err(SsbhError::Truncated);
    }
    let a = attributes[0];
    let (buffer, base, stride) = resolve_access(mesh, mesh_object, &a)?;
    read_elements3(&buffer.elements, base, stride, mesh_object.vertex_count, a.data_type)
}

/// Reads the vertex normals for the specified mesh object from the first
/// normal attribute.
pub fn read_normals(mesh: &Mesh, mesh_object: &MeshObject) -> (r: Result<Vec<Vector3>, SsbhError>)
    ensures
        match r {
            Ok(v) => {
                let accs = attribute_accesses(mesh_object.attributes, AttributeUsage::Normal);
                &&& accs.len() > 0
                &&& attribute_readable(*mesh, *mesh_object, accs[0], 3)
                &&& elements3_ok(*mesh, *mesh_object, accs[0], v@)
            },
            Err(e) => e == SsbhError::Truncated || e == SsbhError::UnsupportedBufferIndex || e
                == SsbhError::OffsetOverflow,
        },
        attribute_accesses(mesh_object.attributes, AttributeUsage::Normal).len() == 0 ==> r
            == Err::<Vec<Vector3>, SsbhError>(SsbhError::Truncated),
        ({
            let accs = attribute_accesses(mesh_object.attributes, AttributeUsage::Normal);
            accs.len() > 0 && attribute_readable(*mesh, *mesh_object, accs[0], 3)
        }) ==> r.is_ok(),
        ({
            let accs = attribute_accesses(mesh_object.attributes, AttributeUsage::Normal);
            accs.len() > 0 && accs[0].index > 1
        }) ==> r == Err::<Vec<Vector3>, SsbhError>(SsbhError::UnsupportedBufferIndex),
{
    let attributes = get_attributes(mesh_object, AttributeUsage::Normal);
    if attributes.len() == 0 {
        return Err(SsbhError::Truncated);
    }
    let a = attributes[0];
    let (buffer, base, stride) = resolve_access(mesh, mesh_object, &a)?;
    read_elements3(&buffer.elements, base, stride, mesh_object.vertex_count, a.data_type)
}

/// Reads every texture-coordinate attribute of the specified mesh object,
/// one decoded array per attribute, in descriptor order.
pub fn read_texture_coordinates(mesh: &Mesh, mesh_object: &MeshObject) -> (r: Result<
    Vec<Vec<Vector2>>,
    SsbhError,
>)
    ensures
        match r {
            Ok(v) => {
                let accs = attribute_accesses(
                    mesh_object.attributes,
                    AttributeUsage::TextureCoordinate,
                );
                &&& v@.len() == accs.len()
                &&& forall|k: int|
                    0 <= k < v@.len() ==> elements2_ok(*mesh, *mesh_object, accs[k], v@[k]@)
            },
            Err(e) => e == SsbhError::Truncated || e == SsbhError::UnsupportedBufferIndex || e
                == SsbhError::OffsetOverflow,
        },
        ({
            let accs = attribute_accesses(mesh_object.attributes, AttributeUsage::TextureCoordinate);
            forall|k: int|
                0 <= k < accs.len() ==> #[trigger] attribute_readable(*mesh, *mesh_object, accs[k], 2)
        }) ==> r.is_ok(),
{
    let accs = get_attributes(mesh_object, AttributeUsage::TextureCoordinate);
    let mut out: Vec<Vec<Vector2>> = Vec::new();
    let mut k: usize = 0;
    while k < accs.len()
        invariant
            accs@ == attribute_accesses(mesh_object.attributes, AttributeUsage::TextureCoordinate),
            k <= accs@.len(),
            out@.len() == k,
            forall|j: int|
                0 <= j < out@.len() ==> elements2_ok(*mesh, *mesh_object, accs@[j], out@[j]@),
        decreases accs@.len() - k,
    {
        let a = accs[k];
        let (buffer, base, stride) = match resolve_access(mesh, mesh_object, &a) {
            Ok(x) => x,
            Err(e) => {
                proof {
                    assert(!attribute_readable(*mesh, *mesh_object, accs@[k as int], 2));
                }
                return Err(e);
            },
        };
        let data = match read_elements2(
            &buffer.elements,
            base,
            stride,
            mesh_object.vertex_count,
            a.data_type,
        ) {
            Ok(x) => x,
            Err(e) => {
                proof {
                    assert(!attribute_readable(*mesh, *mesh_object, accs@[k as int], 2));
                }
                return Err(e);
            },
        };
        out.push(data);
        k = k + 1;
    }
    Ok(out)
}

/// Reads every color-set attribute of the specified mesh object, the
/// version 1.10 color sets first, then the version 1.8 ones.
pub fn read_colorsets(mesh: &Mesh, mesh_object: &MeshObject) -> (r: Result<
    Vec<Vec<Vector4>>,
    SsbhError,
>)
    ensures
        match r {
            Ok(v) => {
                let accs = attribute_accesses(mesh_object.attributes, AttributeUsage::ColorSet)
                    + attribute_accesses(mesh_object.attributes, AttributeUsage::ColorSetV8);
                &&& v@.len() == accs.len()
                &&& forall|k: int|
                    0 <= k < v@.len() ==> elements4_ok(*mesh, *mesh_object, accs[k], v@[k]@)
            },
            Err(e) => e == SsbhError::Truncated || e == SsbhError::UnsupportedBufferIndex || e
                == SsbhError::OffsetOverflow,
        },
        ({
            let accs = attribute_accesses(mesh_object.attributes, AttributeUsage::ColorSet)
                + attribute_accesses(mesh_object.attributes, AttributeUsage::ColorSetV8);
            forall|k: int|
                0 <= k < accs.len() ==> #[trigger] attribute_readable(*mesh, *mesh_object, accs[k], 4)
        }) ==> r.is_ok(),
{
    let mut accs = get_attributes(mesh_object, AttributeUsage::ColorSet);
    let mut accs_v8 = get_attributes(mesh_object, AttributeUsage::ColorSetV8);
    accs.append(&mut accs_v8);
    let mut out: Vec<Vec<Vector4>> = Vec::new();
    let mut k: usize = 0;
    while k < accs.len()
        invariant
            accs@ == attribute_accesses(mesh_object.attributes, AttributeUsage::ColorSet)
                + attribute_accesses(mesh_object.attributes, AttributeUsage::ColorSetV8),
            k <= accs@.len(),
            out@.len() == k,
            forall|j: int|
                0 <= j < out@.len() ==> elements4_ok(*mesh, *mesh_object, accs@[j], out@[j]@),
        decreases accs@.len() - k,
    {
        let a = accs[k];
        let (buffer, base, stride) = match resolve_access(mesh, mesh_object, &a) {
            Ok(x) => x,
            Err(e) => {
                proof {
                    assert(!attribute_readable(*mesh, *mesh_object, accs@[k as int], 4));
                }
                return Err(e);
            },
        };
        let data = match read_elements4(
            &buffer.elements,
            base,
            stride,
            mesh_object.vertex_count,
            a.data_type,
        ) {
            Ok(x) => x,
            Err(e) => {
                proof {
                    assert(!attribute_readable(*mesh, *mesh_object, accs@[k as int], 4));
                }
                return Err(e);
            },
        };
        out.push(data);
        k = k + 1;
    }
    Ok(out)
}

/// The 32-bit index stored at position `i` of the object's index range,
/// whatever the stored width.
pub open spec fn vertex_index_at(s: Seq<u8>, element_offset: u64, width: u64, i: int) -> u32 {
    if width == 2 {
        u16_at(s, element_offset + i * 2) as u32
    } else {
        u32_at(s, element_offset + i * 4)
    }
}

/// Reads the vertex indices of the specified mesh object from the shared
/// index buffer, each promoted to 32 bits whatever its stored width;
/// succeeds exactly when the whole index range lies inside the buffer.
pub fn read_vertex_indices(mesh: &Mesh, mesh_object: &MeshObject) -> (r: Result<
    Vec<u32>,
    SsbhError,
>)
    ensures
        ({
            let width: u64 = match mesh_object.draw_element_type {
                crate::formats::mesh::DrawElementType::UnsignedShort => 2,
                crate::formats::mesh::DrawElementType::UnsignedInt => 4,
            };
            match r {
                Ok(v) => {
                    &&& mesh_object.element_offset + mesh_object.vertex_index_count * width
                        <= mesh.polygon_buffer.elements@.len()
                    &&& v@.len() == mesh_object.vertex_index_count
                    &&& forall|i: int|
                        0 <= i < v@.len() ==> v@[i] == vertex_index_at(
                            mesh.polygon_buffer.elements@,
                            mesh_object.element_offset as u64,
                            width,
                            i,
                        )
                },
                Err(e) => e == SsbhError::Truncated && mesh_object.element_offset
                    + mesh_object.vertex_index_count * width
                    > mesh.polygon_buffer.elements@.len(),
            }
        }),
{
    let buffer = &mesh.polygon_buffer.elements;
    let offset = mesh_object.element_offset as u64;
    let count = mesh_object.vertex_index_count as u64;
    let width: u64 = match mesh_object.draw_element_type {
        crate::formats::mesh::DrawElementType::UnsignedShort => 2,
        crate::formats::mesh::DrawElementType::UnsignedInt => 4,
    };
    proof {
        assert(count * width <= 0xffff_ffff * 4) by (nonlinear_arith)
            requires
                count <= 0xffff_ffff,
                width <= 4,
        ;
    }
    if count * width > buffer.len() as u64 || offset > buffer.len() as u64 - count * width {
        return Err(SsbhError::Truncated);
    }
    let mut v: Vec<u32> = Vec::new();
    let mut i: u64 = 0;
    while i < count
        invariant
            buffer@.len() <= usize::MAX,
            width == 2 || width == 4,
            offset + count * width <= buffer@.len(),
            i <= count,
            v@.len() == i,
            forall|j: int|
                0 <= j < v@.len() ==> v@[j] == vertex_index_at(buffer@, offset, width, j),
        decreases count - i,
    {
        proof {
            assert((i + 1) * width == i * width + width) by (nonlinear_arith);
            assert(i * width <= (count - 1) * width) by (nonlinear_arith)
                requires
                    0 <= i < count,
                    width > 0,
            ;
            assert((count - 1) * width + width == count * width) by (nonlinear_arith);
        }
        if width == 2 {
            let x = read_u16(buffer, offset + i * 2)?;
            v.push(x as u32);
        } else {
            let x = read_u32(buffer, offset + i * 4)?;
            v.push(x);
        }
        i = i + 1;
    }
    Ok(v)
}

/// The weight records a raw region holds: consecutive six-byte records,
/// decoded until the next whole record would run past the region's end.
/// Trailing bytes are not an error; exhaustion is the stream's sole
/// termination signal.
pub open spec fn weights_of(s: Seq<u8>) -> Seq<VertexWeight> {
    Seq::new(
        ((s.len() as int) / 6) as nat,
        |i: int|
            VertexWeight {
                vertex_index: i16_at(s, 6 * i),
                vertex_weight: u32_at(s, 6 * i + 2),
            },
    )
}

/// Decodes a bone weight stream.  The region stores no record count, so
/// records are read until the next one would run past the end; up to five
/// trailing bytes stay unconsumed.
pub fn read_vertex_weights(data: &Vec<u8>) -> (r: Vec<VertexWeight>)
    ensures
        r@ == weights_of(data@),
{
    let n = data.len() / 6;
    let mut v: Vec<VertexWeight> = Vec::new();
    let mut i: usize = 0;
    while i < n
        invariant
            n == data@.len() as int / 6,
            n <= data@.len(),
            data@.len() <= usize::MAX,
            i <= n,
            v@.len() == i,
            forall|j: int| 0 <= j < v@.len() ==> v@[j] == weights_of(data@)[j],
        decreases n - i,
    {
        proof {
            vstd::arithmetic::div_mod::lemma_fundamental_div_mod(data@.len() as int, 6);
            vstd::arithmetic::div_mod::lemma_mod_bound(data@.len() as int, 6);
            assert(6 * (i as int) + 6 <= data@.len());
        }
        let vertex_index = match read_i16(data, 6 * (i as u64)) {
            Ok(x) => x,
            Err(_) => {
                // Provably unreachable: the whole record lies inside the
                // region.
                proof {
                    assert(false);
                }
                0i16
            },
        };
        let vertex_weight = match read_u32(data, 6 * (i as u64) + 2) {
            Ok(x) => x,
            Err(_) => {
                proof {
                    assert(false);
                }
                0u32
            },
        };
        v.push(VertexWeight { vertex_index, vertex_weight });
        i = i + 1;
    }
    v
}

/// One bone's decoded influence on a mesh object's vertices.
#[derive(Debug, PartialEq, Eq, Clone)]
pub struct BoneInfluence {
    pub bone_name: Vec<u8>,
    pub vertex_weights: Vec<VertexWeight>,
}

/// The decoded rigging of one mesh object, associated with it by name and
/// sub-index rather than by direct reference.
#[derive(Debug, PartialEq, Eq, Clone)]
pub struct MeshObjectRiggingData {
    pub mesh_object_name: Vec<u8>,
    pub mesh_sub_index: u64,
    pub bone_influences: Vec<BoneInfluence>,
}

/// Whether every bone of a rigging group carries a name, which decoding
/// the group's weight streams requires.
pub open spec fn influences_readable(g: MeshRiggingGroup) -> bool {
    forall|j: int|
        0 <= j < g.buffers.elements@.len() ==> (#[trigger] g.buffers.elements@[j]).bone_name.bytes
            is Some
}

/// Whether every rigging group of a mesh carries its object name and bone
/// names, which decoding the rigging data requires.
pub open spec fn rigging_readable(mesh: Mesh) -> bool {
    forall|k: int|
        0 <= k < mesh.rigging_buffers.elements@.len() ==> ((#[trigger] mesh.rigging_buffers.elements@[k]).mesh_object_name.bytes is Some
            && influences_readable(mesh.rigging_buffers.elements@[k]))
}

/// What one decoded bone influence holds of its raw buffer.
pub open spec fn influence_matches(
    b: BoneInfluence,
    buffer: crate::formats::mesh::MeshBoneBuffer,
) -> bool {
    &&& buffer.bone_name.bytes is Some
    &&& b.bone_name@ == buffer.bone_name.bytes->Some_0@
    &&& b.vertex_weights@ == weights_of(buffer.data.elements@)
}

/// What one decoded rigging entry holds of its raw group.
pub open spec fn rigging_data_matches(d: MeshObjectRiggingData, g: MeshRiggingGroup) -> bool {
    &&& g.mesh_object_name.bytes is Some
    &&& d.mesh_object_name@ == g.mesh_object_name.bytes->Some_0@
    &&& d.mesh_sub_index == g.mesh_object_sub_index
    &&& d.bone_influences@.len() == g.buffers.elements@.len()
    &&& forall|j: int|
        0 <= j < d.bone_influences@.len() ==> influence_matches(
            d.bone_influences@[j],
            g.buffers.elements@[j],
        )
}

/// Decodes the weight streams of one rigging group; every bone name must be
/// present.
fn read_influences(rigging_group: &MeshRiggingGroup) -> (r: Result<Vec<BoneInfluence>, SsbhError>)
    ensures
        match r {
            Ok(v) => v@.len() == rigging_group.buffers.elements@.len() && forall|j: int|
                0 <= j < v@.len() ==> influence_matches(v@[j], rigging_group.buffers.elements@[j]),
            Err(e) => e == SsbhError::Truncated && !influences_readable(*rigging_group),
        },
        influences_readable(*rigging_group) ==> r.is_ok(),
{
    let mut v: Vec<BoneInfluence> = Vec::new();
    let n = rigging_group.buffers.elements.len();
    let mut i: usize = 0;
    while i < n
        invariant
            n == rigging_group.buffers.elements@.len(),
            i <= n,
            v@.len() == i,
            forall|j: int|
                0 <= j < v@.len() ==> influence_matches(v@[j], rigging_group.buffers.elements@[j]),
        decreases n - i,
    {
        let buffer = &rigging_group.buffers.elements[i];
        let bone_name = match buffer.bone_name.get_bytes() {
            Some(name) => clone_bytes(name),
            None => {
                return Err(SsbhError::Truncated);
            },
        };
        let vertex_weights = read_vertex_weights(&buffer.data.elements);
        v.push(BoneInfluence { bone_name, vertex_weights });
        i = i + 1;
    }
    Ok(v)
}

/// Copies a byte vector.
fn clone_bytes(b: &Vec<u8>) -> (r: Vec<u8>)
    ensures
        r@ == b@,
{
    let mut r: Vec<u8> = Vec::new();
    let mut i: usize = 0;
    while i < b.len()
        invariant
            i <= b@.len(),
            r@ == b@.subrange(0, i as int),
        decreases b@.len() - i,
    {
        r.push(b[i]);
        proof {
            assert(r@ =~= b@.subrange(0, i + 1));
        }
        i = i + 1;
    }
    proof {
        assert(b@.subrange(0, b@.len() as int) =~= b@);
    }
    r
}

/// Reads the rigging data for every group of the specified mesh.  Rigging
/// is not part of the mesh objects themselves, so each entry must be
/// associated with the object of matching name and sub-index by the caller.
pub fn read_rigging_data(mesh: &Mesh) -> (r: Result<Vec<MeshObjectRiggingData>, SsbhError>)
    ensures
        match r {
            Ok(v) => v@.len() == mesh.rigging_buffers.elements@.len() && forall|k: int|
                0 <= k < v@.len() ==> rigging_data_matches(v@[k], mesh.rigging_buffers.elements@[k]),
            Err(e) => e == SsbhError::Truncated && !rigging_readable(*mesh),
        },
        rigging_readable(*mesh) ==> r.is_ok(),
{
    let mut v: Vec<MeshObjectRiggingData> = Vec::new();
    let n = mesh.rigging_buffers.elements.len();
    let mut k: usize = 0;
    while k < n
        invariant
            n == mesh.rigging_buffers.elements@.len(),
            k <= n,
            v@.len() == k,
            forall|j: int|
                0 <= j < v@.len() ==> rigging_data_matches(v@[j], mesh.rigging_buffers.elements@[j]),
        decreases n - k,
    {
        let group = &mesh.rigging_buffers.elements[k];
        let mesh_object_name = match group.mesh_object_name.get_bytes() {
            Some(name) => clone_bytes(name),
            None => {
                return Err(SsbhError::Truncated);
            },
        };
        let bone_influences = read_influences(group)?;
        v.push(
            MeshObjectRiggingData {
                mesh_object_name,
                mesh_sub_index: group.mesh_object_sub_index,
                bone_influences,
            },
        );
        k = k + 1;
    }
    Ok(v)
}

/// Gets the name of a version 1.10 attribute from its attribute-name list,
/// which holds at least one entry whose value is unique among the mesh
/// object's attributes.
pub fn get_attribute_name(attribute: &MeshAttributeV10) -> (r: Option<&Vec<u8>>)
    requires
        attribute.attribute_names.elements@.len() > 0,
    ensures
        match r {
            Some(b) => attribute.attribute_names.elements@[0].bytes == Some(*b),
            None => attribute.attribute_names.elements@[0].bytes is None,
        },
{
    attribute.attribute_names.elements[0].get_bytes()
}

} // verus!
