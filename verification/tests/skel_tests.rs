use ssbh_lib::skel_data::{BoneData, SkelData};
use ssbh_lib::vectors::{Matrix4x4, Vector4};

fn matrix_of(rows: [[f32; 4]; 4]) -> Matrix4x4 {
    let r = |i: usize| Vector4 {
        x: rows[i][0].to_bits(),
        y: rows[i][1].to_bits(),
        z: rows[i][2].to_bits(),
        w: rows[i][3].to_bits(),
    };
    Matrix4x4 {
        row1: r(0),
        row2: r(1),
        row3: r(2),
        row4: r(3),
    }
}

fn rows_of(m: &Matrix4x4) -> [[f32; 4]; 4] {
    let r = |v: &Vector4| {
        [
            f32::from_bits(v.x),
            f32::from_bits(v.y),
            f32::from_bits(v.z),
            f32::from_bits(v.w),
        ]
    };
    [r(&m.row1), r(&m.row2), r(&m.row3), r(&m.row4)]
}

/// Row-major 4x4 matrix product, as a consumer of the chain composes it.
fn mul(a: [[f32; 4]; 4], b: [[f32; 4]; 4]) -> [[f32; 4]; 4] {
    let mut out = [[0.0f32; 4]; 4];
    for i in 0..4 {
        for j in 0..4 {
            let mut sum = 0.0f32;
            for k in 0..4 {
                sum += a[i][k] * b[k][j];
            }
            out[i][j] = sum;
        }
    }
    out
}

fn bone(name: &[u8], transform: [[f32; 4]; 4], parent_index: Option<usize>) -> BoneData {
    BoneData {
        name: name.to_vec(),
        transform: matrix_of(transform),
        world_transform: matrix_of([[0.0; 4]; 4]),
        parent_index,
    }
}

#[test]
fn chain_no_parent() {
    let data = SkelData {
        bones: vec![bone(b"root", [[0.0; 4]; 4], None)],
    };
    assert_eq!(None, data.single_bind_chain(&b"parent".to_vec()));
}

#[test]
fn chain_single_bone() {
    let data = SkelData {
        bones: vec![bone(b"parent", [[0.0; 4]; 4], None)],
    };
    assert_eq!(Some(vec![0]), data.single_bind_chain(&b"parent".to_vec()));
}

#[test]
fn chain_multi_parent() {
    let data = SkelData {
        bones: vec![
            bone(b"parent", [[0.0; 4]; 4], Some(1)),
            bone(b"grandparent", [[0.0; 4]; 4], None),
        ],
    };
    assert_eq!(
        Some(vec![0, 1]),
        data.single_bind_chain(&b"parent".to_vec())
    );
}

#[test]
fn chain_parent_out_of_bounds() {
    let data = SkelData {
        bones: vec![bone(b"parent", [[0.0; 4]; 4], Some(5))],
    };
    assert_eq!(None, data.single_bind_chain(&b"parent".to_vec()));
}

#[test]
fn chain_cycle_is_rejected() {
    let data = SkelData {
        bones: vec![
            bone(b"a", [[0.0; 4]; 4], Some(1)),
            bone(b"b", [[0.0; 4]; 4], Some(0)),
        ],
    };
    assert_eq!(None, data.single_bind_chain(&b"a".to_vec()));
}

#[test]
fn chain_transform_order_parent_after_child() {
    // Non-symmetric matrices pin the composition order down: folding the
    // chain left to right in row-major convention composes each parent
    // after its child.
    let child = [
        [1.0f32, 0.0, 0.0, 0.0],
        [0.0, 2.0, 0.0, 0.0],
        [0.0, 0.0, 3.0, 1.0],
        [0.0, 0.0, 0.0, 1.0],
    ];
    let parent = [
        [1.0f32, 0.0, 0.0, 0.0],
        [0.0, 2.0, 0.0, 0.0],
        [0.0, 0.0, 3.0, 0.0],
        [0.0, 0.0, 0.0, 4.0],
    ];
    let data = SkelData {
        bones: vec![
            bone(b"parent", child, Some(1)),
            bone(b"grandparent", parent, None),
        ],
    };

    let chain = data.single_bind_chain(&b"parent".to_vec()).unwrap();
    let mut result = rows_of(&data.bones[chain[0]].transform);
    for &i in &chain[1..] {
        result = mul(result, rows_of(&data.bones[i].transform));
    }

    let expected = [
        [1.0f32, 0.0, 0.0, 0.0],
        [0.0, 4.0, 0.0, 0.0],
        [0.0, 0.0, 9.0, 4.0],
        [0.0, 0.0, 0.0, 4.0],
    ];
    assert_eq!(expected, result);
}
