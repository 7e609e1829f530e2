use ssbh_lib::arrays::{SsbhArray, SsbhByteBuffer};
use ssbh_lib::error::SsbhError;
use ssbh_lib::formats::mesh::{
    AttributeDataType, AttributeUsage, BoundingInfo, BoundingSphere, BoundingVolume,
    DrawElementType, Mesh, MeshAttributeV10, MeshAttributeV8, MeshAttributes, MeshBoneBuffer,
    MeshObject, MeshRiggingGroup, OrientedBoundingBox, RiggingFlags, RiggingType,
};
use ssbh_lib::formats::nufx::{MaterialParameter, Nufx, ShaderProgram, UnkItem, VertexAttribute};
use ssbh_lib::formats::skel::{BillboardType, Skel, SkelBoneEntry, SkelEntryFlags};
use ssbh_lib::ptr::RelPtr64;
use ssbh_lib::ssbh::{Ssbh, SsbhFile};
use ssbh_lib::strings::SsbhString;
use ssbh_lib::vectors::{Matrix3x3, Matrix4x4, Vector3, Vector4};

fn zero_vector3() -> Vector3 {
    Vector3 { x: 0, y: 0, z: 0 }
}

fn zero_bounding_info() -> BoundingInfo {
    BoundingInfo {
        bounding_sphere: BoundingSphere {
            center: zero_vector3(),
            radius: 0,
        },
        bounding_volume: BoundingVolume {
            min: zero_vector3(),
            max: zero_vector3(),
        },
        oriented_bounding_box: OrientedBoundingBox {
            center: zero_vector3(),
            transform: Matrix3x3 {
                row1: zero_vector3(),
                row2: zero_vector3(),
                row3: zero_vector3(),
            },
            size: zero_vector3(),
        },
    }
}

fn matrix_of(rows: [[f32; 4]; 4]) -> Matrix4x4 {
    let r = |i: usize| Vector4 {
        x: rows[i][0].to_bits(),
        y: rows[i][1].to_bits(),
        z: rows[i][2].to_bits(),
        w: rows[i][3].to_bits(),
    };
    Matrix4x4 {
        row1: r(0),
        row2: r(1),
        row3: r(2),
        row4: r(3),
    }
}

fn sample_skel() -> Skel {
    let identity = matrix_of([
        [1.0, 0.0, 0.0, 0.0],
        [0.0, 1.0, 0.0, 0.0],
        [0.0, 0.0, 1.0, 0.0],
        [0.0, 0.0, 0.0, 1.0],
    ]);
    let bones = vec![
        SkelBoneEntry {
            name: SsbhString::new(b"Root".to_vec()),
            index: 0,
            parent_index: -1,
            flags: SkelEntryFlags {
                unk1: 1,
                billboard_type: BillboardType::Disabled,
            },
        },
        SkelBoneEntry {
            name: SsbhString::new(b"Arm".to_vec()),
            index: 1,
            parent_index: 0,
            flags: SkelEntryFlags {
                unk1: 1,
                billboard_type: BillboardType::XYAxisAligned,
            },
        },
    ];
    Skel::V10 {
        bone_entries: SsbhArray::new(bones),
        world_transforms: SsbhArray::new(vec![identity.clone(), identity.clone()]),
        inv_world_transforms: SsbhArray::new(vec![identity.clone(), identity.clone()]),
        transforms: SsbhArray::new(vec![identity.clone(), identity.clone()]),
        inv_transforms: SsbhArray::new(vec![identity.clone(), identity]),
    }
}

#[test]
fn skel_header_bytes() {
    let skel = sample_skel();
    let bytes = skel.write().unwrap();
    assert_eq!(&bytes[0..4], b"HBSS");
    assert_eq!(&bytes[4..12], &64u64.to_le_bytes());
    assert_eq!(&bytes[12..16], &[0, 0, 0, 0]);
    assert_eq!(&bytes[16..20], b"LEKS");
    // The record begins 16-byte aligned with its version pair.
    assert_eq!(&bytes[20..24], &[1, 0, 0, 0]);
}

#[test]
fn skel_round_trip() {
    let skel = sample_skel();
    let bytes = skel.write().unwrap();
    let decoded = Skel::read(&bytes).unwrap();
    assert_eq!(skel, decoded);
}

#[test]
fn skel_round_trip_via_ssbh() {
    let ssbh = Ssbh {
        data: SsbhFile::Skel(sample_skel()),
    };
    let bytes = ssbh.write().unwrap();
    let decoded = Ssbh::read(&bytes).unwrap();
    assert_eq!(ssbh, decoded);
}

#[test]
fn skel_wrong_type() {
    let bytes = sample_skel().write().unwrap();
    let result = Mesh::read(&bytes);
    assert!(matches!(result, Err(SsbhError::InvalidSsbhType)));
}

#[test]
fn bad_container_magic() {
    let mut bytes = sample_skel().write().unwrap();
    bytes[0] = b'X';
    assert!(matches!(Ssbh::read(&bytes), Err(SsbhError::MalformedMagic)));
}

#[test]
fn bad_format_magic() {
    let mut bytes = sample_skel().write().unwrap();
    bytes[16] = b'X';
    assert!(matches!(Ssbh::read(&bytes), Err(SsbhError::MalformedMagic)));
}

#[test]
fn bad_skel_version() {
    let mut bytes = sample_skel().write().unwrap();
    // Corrupt the major version.
    bytes[20] = 9;
    assert!(matches!(Skel::read(&bytes), Err(SsbhError::MalformedMagic)));
}

#[test]
fn truncated_file() {
    let bytes = vec![b'H', b'B', b'S', b'S', 0, 0];
    assert!(matches!(Ssbh::read(&bytes), Err(SsbhError::Truncated)));
}

fn sample_nufx() -> Nufx {
    let program = ShaderProgram {
        name: SsbhString::new(b"program0".to_vec()),
        render_pass: SsbhString::new(b"nu::opaque".to_vec()),
        vertex_shader: SsbhString::new(b"shader_vs".to_vec()),
        unk_shader1: SsbhString::null(),
        unk_shader2: SsbhString::null(),
        unk_shader3: SsbhString::null(),
        pixel_shader: SsbhString::new(b"shader_ps".to_vec()),
        unk_shader4: SsbhString::null(),
        vertex_attributes: SsbhArray::new(vec![
            VertexAttribute {
                name: SsbhString::new(b"Position0".to_vec()),
                attribute_name: SsbhString::new(b"position".to_vec()),
            },
            VertexAttribute {
                name: SsbhString::new(b"Normal0".to_vec()),
                attribute_name: SsbhString::new(b"normal".to_vec()),
            },
        ]),
        material_parameters: SsbhArray::new(vec![MaterialParameter {
            param_id: 42,
            parameter_name: SsbhString::new(b"CustomVector0".to_vec()),
        }]),
    };
    Nufx {
        major_version: 1,
        minor_version: 1,
        programs: SsbhArray::new(vec![program]),
        unk_string_list: SsbhArray::new(vec![UnkItem {
            text: SsbhString::new(Vec::new()),
            unk1: RelPtr64::new(SsbhString::new(b"extra".to_vec())),
            unk2: 7,
        }]),
    }
}

#[test]
fn nufx_round_trip() {
    let nufx = sample_nufx();
    let bytes = nufx.write().unwrap();
    let decoded = Nufx::read(&bytes).unwrap();
    assert_eq!(nufx, decoded);
}

#[test]
fn empty_string_distinct_from_absent() {
    let nufx = sample_nufx();
    let bytes = nufx.write().unwrap();
    let decoded = Nufx::read(&bytes).unwrap();
    let item = &decoded.unk_string_list.elements[0];
    // The empty string decodes as present-and-empty, not absent.
    assert_eq!(item.text.get_bytes().map(|b| b.len()), Some(0));
    assert!(decoded.programs.elements[0].unk_shader1.get_bytes().is_none());
}

fn sample_mesh(minor_version: u16) -> Mesh {
    let attributes = if minor_version == 10 {
        MeshAttributes::AttributesV10(SsbhArray::new(vec![MeshAttributeV10 {
            usage: AttributeUsage::Position,
            data_type: AttributeDataType::Float3,
            buffer_index: 0,
            buffer_offset: 0,
            sub_index: 0,
            name: SsbhString::new(b"p0".to_vec()),
            attribute_names: SsbhArray::new(vec![SsbhString::new(b"Position0".to_vec())]),
        }]))
    } else {
        MeshAttributes::AttributesV8(SsbhArray::new(vec![MeshAttributeV8 {
            usage: AttributeUsage::Position,
            data_type: ssbh_lib::formats::mesh::AttributeDataTypeV8::Float3,
            buffer_index: 0,
            buffer_offset: 0,
            sub_index: 0,
        }]))
    };
    let object = MeshObject {
        name: SsbhString::new(b"body".to_vec()),
        sub_index: 0,
        parent_bone_name: SsbhString::null(),
        vertex_count: 2,
        vertex_index_count: 3,
        unk2: 3,
        vertex_offset: 0,
        vertex_offset2: 0,
        final_buffer_offset: 0,
        buffer_index: 0,
        stride: 12,
        stride2: 0,
        unk6: 0,
        unk7: 0,
        element_offset: 0,
        unk8: 4,
        draw_element_type: DrawElementType::UnsignedShort,
        rigging_type: RiggingType::Weighted,
        unk11: 0,
        unk12: 0,
        bounding_info: zero_bounding_info(),
        attributes,
    };
    let vertex_data: Vec<u8> = [0.0f32, 1.0, 2.0, 3.0, 4.0, 5.0]
        .iter()
        .flat_map(|v| v.to_bits().to_le_bytes())
        .collect();
    Mesh {
        major_version: 1,
        minor_version,
        model_name: SsbhString::new(b"model".to_vec()),
        bounding_info: zero_bounding_info(),
        unk1: 0,
        objects: SsbhArray::new(vec![object]),
        buffer_sizes: SsbhArray::new(vec![24, 0, 0, 0]),
        polygon_index_size: 2,
        vertex_buffers: SsbhArray::new(vec![
            SsbhByteBuffer::new(vertex_data),
            SsbhByteBuffer::new(Vec::new()),
        ]),
        polygon_buffer: SsbhByteBuffer::new(vec![0, 0, 1, 0, 2, 0]),
        rigging_buffers: SsbhArray::new(vec![MeshRiggingGroup {
            mesh_object_name: SsbhString::new(b"body".to_vec()),
            mesh_object_sub_index: 0,
            flags: RiggingFlags { bits: 0x104 },
            buffers: SsbhArray::new(vec![MeshBoneBuffer {
                bone_name: SsbhString::new(b"Arm".to_vec()),
                data: SsbhByteBuffer::new(vec![1, 0, 0, 0, 128, 63]),
            }]),
        }]),
        unknown_offset: 0,
        unknown_size: 0,
    }
}

#[test]
fn mesh_round_trip_v10() {
    let mesh = sample_mesh(10);
    let bytes = mesh.write().unwrap();
    let decoded = Mesh::read(&bytes).unwrap();
    assert_eq!(mesh, decoded);
}

#[test]
fn mesh_round_trip_v8() {
    let mesh = sample_mesh(8);
    let bytes = mesh.write().unwrap();
    let decoded = Mesh::read(&bytes).unwrap();
    assert_eq!(mesh, decoded);
}

#[test]
fn mesh_bad_version() {
    let mut mesh = sample_mesh(10);
    mesh.minor_version = 9;
    let bytes = mesh.write().unwrap();
    assert!(matches!(Mesh::read(&bytes), Err(SsbhError::MalformedMagic)));
}

#[test]
fn skel_with_no_bones_round_trips() {
    let skel = Skel::V10 {
        bone_entries: SsbhArray::new(Vec::new()),
        world_transforms: SsbhArray::new(Vec::new()),
        inv_world_transforms: SsbhArray::new(Vec::new()),
        transforms: SsbhArray::new(Vec::new()),
        inv_transforms: SsbhArray::new(Vec::new()),
    };
    let bytes = skel.write().unwrap();
    // Empty sequences encode as a zero pointer and a zero count.
    assert_eq!(&bytes[24..40], &[0u8; 16]);
    let decoded = Skel::read(&bytes).unwrap();
    assert_eq!(skel, decoded);
}

#[test]
fn mesh_round_trip_via_ssbh() {
    let ssbh = Ssbh {
        data: SsbhFile::Mesh(sample_mesh(10)),
    };
    let bytes = ssbh.write().unwrap();
    assert_eq!(&bytes[16..20], b"HSEM");
    let decoded = Ssbh::read(&bytes).unwrap();
    assert_eq!(ssbh, decoded);
}
