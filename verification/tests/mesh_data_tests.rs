use ssbh_lib::arrays::{SsbhArray, SsbhByteBuffer};
use ssbh_lib::error::SsbhError;
use ssbh_lib::formats::mesh::{
    AttributeDataType, AttributeUsage, BoundingInfo, BoundingSphere, BoundingVolume,
    DrawElementType, Mesh, MeshAttributeV10, MeshAttributes, MeshBoneBuffer, MeshObject,
    MeshRiggingGroup, OrientedBoundingBox, RiggingFlags, RiggingType,
};
use ssbh_lib::mesh_data::{
    byte_to_float_bits, get_attribute_name, get_attributes, half_bits_to_float_bits,
    read_positions, read_rigging_data, read_texture_coordinates, read_vertex_indices,
    read_vertex_weights, DataType,
};
use ssbh_lib::strings::SsbhString;
use ssbh_lib::vectors::{Matrix3x3, Vector3};

fn zero_vector3() -> Vector3 {
    Vector3 { x: 0, y: 0, z: 0 }
}

fn zero_bounding_info() -> BoundingInfo {
    BoundingInfo {
        bounding_sphere: BoundingSphere {
            center: zero_vector3(),
            radius: 0,
        },
        bounding_volume: BoundingVolume {
            min: zero_vector3(),
            max: zero_vector3(),
        },
        oriented_bounding_box: OrientedBoundingBox {
            center: zero_vector3(),
            transform: Matrix3x3 {
                row1: zero_vector3(),
                row2: zero_vector3(),
                row3: zero_vector3(),
            },
            size: zero_vector3(),
        },
    }
}

fn position_attribute(buffer_offset: u32) -> MeshAttributeV10 {
    MeshAttributeV10 {
        usage: AttributeUsage::Position,
        data_type: AttributeDataType::Float3,
        buffer_index: 0,
        buffer_offset,
        sub_index: 0,
        name: SsbhString::new(b"p0".to_vec()),
        attribute_names: SsbhArray::new(vec![SsbhString::new(b"Position0".to_vec())]),
    }
}

fn mesh_object(attributes: Vec<MeshAttributeV10>, stride: u32, vertex_count: u32) -> MeshObject {
    MeshObject {
        name: SsbhString::new(b"body".to_vec()),
        sub_index: 0,
        parent_bone_name: SsbhString::null(),
        vertex_count,
        vertex_index_count: 3,
        unk2: 3,
        vertex_offset: 0,
        vertex_offset2: 0,
        final_buffer_offset: 0,
        buffer_index: 0,
        stride,
        stride2: 0,
        unk6: 0,
        unk7: 0,
        element_offset: 0,
        unk8: 4,
        draw_element_type: DrawElementType::UnsignedShort,
        rigging_type: RiggingType::Weighted,
        unk11: 0,
        unk12: 0,
        bounding_info: zero_bounding_info(),
        attributes: MeshAttributes::AttributesV10(SsbhArray::new(attributes)),
    }
}

fn mesh_with_buffers(
    objects: Vec<MeshObject>,
    vertex_data: Vec<u8>,
    index_data: Vec<u8>,
    rigging: Vec<MeshRiggingGroup>,
) -> Mesh {
    Mesh {
        major_version: 1,
        minor_version: 10,
        model_name: SsbhString::new(b"model".to_vec()),
        bounding_info: zero_bounding_info(),
        unk1: 0,
        objects: SsbhArray::new(objects),
        buffer_sizes: SsbhArray::new(vec![0, 0, 0, 0]),
        polygon_index_size: 2,
        vertex_buffers: SsbhArray::new(vec![
            SsbhByteBuffer::new(vertex_data),
            SsbhByteBuffer::new(Vec::new()),
        ]),
        polygon_buffer: SsbhByteBuffer::new(index_data),
        rigging_buffers: SsbhArray::new(rigging),
        unknown_offset: 0,
        unknown_size: 0,
    }
}

#[test]
fn interleaved_position_decode() {
    // Two interleaved three-float records with stride 12.
    let vertex_data: Vec<u8> = [0.0f32, 1.0, 2.0, 3.0, 4.0, 5.0]
        .iter()
        .flat_map(|v| v.to_bits().to_le_bytes())
        .collect();
    assert_eq!(&vertex_data[0..12], &[0, 0, 0, 0, 0, 0, 128, 63, 0, 0, 0, 64]);
    let object = mesh_object(vec![position_attribute(0)], 12, 2);
    let mesh = mesh_with_buffers(vec![object.clone()], vertex_data, Vec::new(), Vec::new());

    let positions = read_positions(&mesh, &object).unwrap();
    assert_eq!(2, positions.len());
    let as_floats = |v: &ssbh_lib::vectors::Vector3| {
        [
            f32::from_bits(v.x),
            f32::from_bits(v.y),
            f32::from_bits(v.z),
        ]
    };
    assert_eq!([0.0, 1.0, 2.0], as_floats(&positions[0]));
    assert_eq!([3.0, 4.0, 5.0], as_floats(&positions[1]));
}

#[test]
fn interleaved_attributes_share_one_buffer() {
    // One buffer interleaves a position and a texture coordinate; the
    // stride exceeds the position's natural size.
    let mut uv = position_attribute(12);
    uv.usage = AttributeUsage::TextureCoordinate;
    uv.data_type = AttributeDataType::HalfFloat2;
    let object = mesh_object(vec![position_attribute(0), uv], 16, 1);
    // 12 bytes of floats, then two half-precision values 1.0 (0x3C00).
    let mut vertex_data: Vec<u8> = [6.0f32, 7.0, 8.0]
        .iter()
        .flat_map(|v| v.to_bits().to_le_bytes())
        .collect();
    vertex_data.extend_from_slice(&[0x00, 0x3C, 0x00, 0x3C]);
    let mesh = mesh_with_buffers(vec![object.clone()], vertex_data, Vec::new(), Vec::new());

    let positions = read_positions(&mesh, &object).unwrap();
    assert_eq!(f32::from_bits(positions[0].x), 6.0);
    let uvs = read_texture_coordinates(&mesh, &object).unwrap();
    assert_eq!(1, uvs.len());
    assert_eq!(f32::from_bits(uvs[0][0].x), 1.0);
    assert_eq!(f32::from_bits(uvs[0][0].y), 1.0);
}

#[test]
fn missing_position_attribute() {
    let object = mesh_object(Vec::new(), 12, 2);
    let mesh = mesh_with_buffers(vec![object.clone()], Vec::new(), Vec::new(), Vec::new());
    assert!(read_positions(&mesh, &object).is_err());
}

#[test]
fn unsupported_buffer_index() {
    let mut attr = position_attribute(0);
    attr.buffer_index = 2;
    let object = mesh_object(vec![attr], 12, 1);
    let mesh = mesh_with_buffers(vec![object.clone()], Vec::new(), Vec::new(), Vec::new());
    assert!(matches!(
        read_positions(&mesh, &object),
        Err(SsbhError::UnsupportedBufferIndex)
    ));
}

#[test]
fn vertex_indices_u16() {
    let object = mesh_object(vec![position_attribute(0)], 12, 2);
    let mesh = mesh_with_buffers(
        vec![object.clone()],
        Vec::new(),
        vec![0, 0, 1, 0, 2, 0],
        Vec::new(),
    );
    let indices = read_vertex_indices(&mesh, &object).unwrap();
    assert_eq!(vec![0u32, 1, 2], indices);
}

#[test]
fn vertex_indices_u32() {
    let mut object = mesh_object(vec![position_attribute(0)], 12, 2);
    object.draw_element_type = DrawElementType::UnsignedInt;
    let mesh = mesh_with_buffers(
        vec![object.clone()],
        Vec::new(),
        vec![7, 0, 0, 0, 5, 0, 0, 0, 0x70, 0x11, 0x01, 0],
        Vec::new(),
    );
    let indices = read_vertex_indices(&mesh, &object).unwrap();
    assert_eq!(vec![7u32, 5, 70000], indices);
}

#[test]
fn vertex_indices_truncated() {
    let object = mesh_object(vec![position_attribute(0)], 12, 2);
    let mesh = mesh_with_buffers(vec![object.clone()], Vec::new(), vec![0, 0], Vec::new());
    assert!(matches!(
        read_vertex_indices(&mesh, &object),
        Err(SsbhError::Truncated)
    ));
}

#[test]
fn unterminated_weight_stream() {
    // One six-byte record followed by three trailing bytes: exactly one
    // record decodes and the trailing bytes stay unconsumed, silently.
    let region = vec![1, 0, 0, 0, 128, 63, 9, 9, 9];
    let weights = read_vertex_weights(&region);
    assert_eq!(1, weights.len());
    assert_eq!(1, weights[0].vertex_index);
    assert_eq!(1.0f32.to_bits(), weights[0].vertex_weight);
}

#[test]
fn weight_stream_negative_index() {
    let region = vec![0xFE, 0xFF, 0, 0, 0, 63];
    let weights = read_vertex_weights(&region);
    assert_eq!(1, weights.len());
    assert_eq!(-2, weights[0].vertex_index);
    assert_eq!(0.5f32.to_bits(), weights[0].vertex_weight);
}

#[test]
fn rigging_data_decodes_names_and_weights() {
    let rigging = vec![MeshRiggingGroup {
        mesh_object_name: SsbhString::new(b"body".to_vec()),
        mesh_object_sub_index: 3,
        flags: RiggingFlags { bits: 0x104 },
        buffers: SsbhArray::new(vec![MeshBoneBuffer {
            bone_name: SsbhString::new(b"Arm".to_vec()),
            data: SsbhByteBuffer::new(vec![2, 0, 0, 0, 128, 63, 9]),
        }]),
    }];
    let object = mesh_object(vec![position_attribute(0)], 12, 2);
    let mesh = mesh_with_buffers(vec![object], Vec::new(), Vec::new(), rigging);

    let data = read_rigging_data(&mesh).unwrap();
    assert_eq!(1, data.len());
    assert_eq!(b"body".to_vec(), data[0].mesh_object_name);
    assert_eq!(3, data[0].mesh_sub_index);
    assert_eq!(1, data[0].bone_influences.len());
    assert_eq!(b"Arm".to_vec(), data[0].bone_influences[0].bone_name);
    assert_eq!(1, data[0].bone_influences[0].vertex_weights.len());
    assert_eq!(2, data[0].bone_influences[0].vertex_weights[0].vertex_index);
}

#[test]
fn rigging_data_missing_bone_name() {
    let rigging = vec![MeshRiggingGroup {
        mesh_object_name: SsbhString::new(b"body".to_vec()),
        mesh_object_sub_index: 0,
        flags: RiggingFlags { bits: 0 },
        buffers: SsbhArray::new(vec![MeshBoneBuffer {
            bone_name: SsbhString::null(),
            data: SsbhByteBuffer::new(Vec::new()),
        }]),
    }];
    let object = mesh_object(vec![position_attribute(0)], 12, 2);
    let mesh = mesh_with_buffers(vec![object], Vec::new(), Vec::new(), rigging);
    assert!(matches!(
        read_rigging_data(&mesh),
        Err(SsbhError::Truncated)
    ));
}

#[test]
fn attribute_filter_keeps_order() {
    let mut uv0 = position_attribute(0);
    uv0.usage = AttributeUsage::TextureCoordinate;
    let mut uv1 = position_attribute(8);
    uv1.usage = AttributeUsage::TextureCoordinate;
    let object = mesh_object(vec![uv0, position_attribute(4), uv1], 16, 1);
    let accesses = get_attributes(&object, AttributeUsage::TextureCoordinate);
    assert_eq!(2, accesses.len());
    assert_eq!(0, accesses[0].offset);
    assert_eq!(8, accesses[1].offset);
    assert_eq!(DataType::Float, accesses[0].data_type);
}

#[test]
fn attribute_name_lookup() {
    let attr = position_attribute(0);
    assert_eq!(Some(&b"Position0".to_vec()), get_attribute_name(&attr));
}

#[test]
fn byte_promotion_is_exact() {
    assert_eq!(0.0f32.to_bits(), byte_to_float_bits(0));
    assert_eq!(1.0f32.to_bits(), byte_to_float_bits(1));
    assert_eq!(2.0f32.to_bits(), byte_to_float_bits(2));
    assert_eq!(127.0f32.to_bits(), byte_to_float_bits(127));
    assert_eq!(128.0f32.to_bits(), byte_to_float_bits(128));
    assert_eq!(255.0f32.to_bits(), byte_to_float_bits(255));
    for b in 0..=255u8 {
        assert_eq!((b as f32).to_bits(), byte_to_float_bits(b));
    }
}

#[test]
fn half_promotion_is_exact() {
    // 1.0, -1.0, 0.5, 65504.0 (the largest finite half), and -0.0.
    assert_eq!(1.0f32.to_bits(), half_bits_to_float_bits(0x3C00));
    assert_eq!((-1.0f32).to_bits(), half_bits_to_float_bits(0xBC00));
    assert_eq!(0.5f32.to_bits(), half_bits_to_float_bits(0x3800));
    assert_eq!(65504.0f32.to_bits(), half_bits_to_float_bits(0x7BFF));
    assert_eq!((-0.0f32).to_bits(), half_bits_to_float_bits(0x8000));
    // The smallest subnormal half is 2^-24.
    assert_eq!(2.0f32.powi(-24).to_bits(), half_bits_to_float_bits(0x0001));
    // A larger subnormal: 0x03FF is (1023 / 1024) * 2^-14.
    let expected = (1023.0f32 / 1024.0) * 2.0f32.powi(-14);
    assert_eq!(expected.to_bits(), half_bits_to_float_bits(0x03FF));
    // Infinities map to 32-bit infinities.
    assert_eq!(f32::INFINITY.to_bits(), half_bits_to_float_bits(0x7C00));
    assert_eq!(f32::NEG_INFINITY.to_bits(), half_bits_to_float_bits(0xFC00));
}
