//! The bone-chain resolver against an independent float implementation of
//! the renderer's skinning composition.

use radarcore::error::DecodeError;
use radarcore::fake_process::FakeProcess;
use radarcore::maths::{Matrix34, Vector4};
use radarcore::unity::{parse_bone_matrices, parse_parent_indices, resolve_chain, skin_step,
    transform_to_world_space};

fn vec4(x: f32, y: f32, z: f32, w: f32) -> Vector4 {
    Vector4 { x: x.to_bits(), y: y.to_bits(), z: z.to_bits(), w: w.to_bits() }
}

fn mat(m0: [f32; 4], q: [f32; 4], s: [f32; 4]) -> Matrix34 {
    Matrix34 {
        vec0: vec4(m0[0], m0[1], m0[2], m0[3]),
        vec1: vec4(q[0], q[1], q[2], q[3]),
        vec2: vec4(s[0], s[1], s[2], s[3]),
    }
}

/// The same composition, written directly over native floats.
fn skin_step_f32(prev: [f32; 4], m0: [f32; 4], q: [f32; 4], s: [f32; 4]) -> [f32; 4] {
    let t = [s[0] * prev[0], s[1] * prev[1], s[2] * prev[2], s[3] * prev[3]];
    let lane = |a: f32, b: f32, c: f32, k0: f32, k1: f32, k2: f32, tl: f32, base: f32| -> f32 {
        let pa = ((q[0] * k1) * a - (q[1] * k2) * b) * t[2];
        let pb = ((q[2] * k2) * b - (q[0] * k0) * c) * t[1];
        let pc = ((q[1] * k0) * c - (q[2] * k1) * a) * t[0];
        ((pa + pb) + (pc + tl)) + base
    };
    [
        lane(q[2], q[3], q[1], -2.0, 2.0, -2.0, t[0], m0[0]),
        lane(q[3], q[2], q[0], 2.0, -2.0, -2.0, t[1], m0[1]),
        lane(q[0], q[1], q[3], -2.0, -2.0, 2.0, t[2], m0[2]),
        lane(q[2], q[3], q[1], 0.0, 0.0, 0.0, t[3], m0[3]),
    ]
}

#[test]
fn one_step_matches_native_floats() {
    let prev = [1.5f32, -2.0, 0.75, 1.0];
    let m0 = [10.0f32, 20.0, 30.0, 0.0];
    let q = [0.1f32, 0.2, -0.3, 0.927];
    let s = [1.0f32, 1.25, 0.8, 1.0];
    let got = skin_step(
        &vec4(prev[0], prev[1], prev[2], prev[3]),
        &mat(m0, q, s),
    );
    let want = skin_step_f32(prev, m0, q, s);
    assert_eq!(got.x, want[0].to_bits());
    assert_eq!(got.y, want[1].to_bits());
    assert_eq!(got.z, want[2].to_bits());
    assert_eq!(got.w, want[3].to_bits());
}

#[test]
fn chain_folds_up_the_parents() {
    let m0 = mat([1.0, 2.0, 3.0, 0.0], [0.0, 0.0, 0.0, 1.0], [1.0, 1.0, 1.0, 1.0]);
    let m1 = mat([4.0, -5.0, 6.0, 0.0], [0.3, -0.1, 0.2, 0.95], [1.1, 0.9, 1.0, 1.0]);
    let m2 = mat([-7.0, 8.0, 9.5, 0.0], [0.05, 0.4, -0.2, 0.9], [1.0, 1.0, 1.2, 1.0]);
    let mats = vec![m0, m1, m2];
    let parents: Vec<u32> = vec![(-1i32) as u32, 0, 1];

    let got = resolve_chain(&mats, &parents, 2);

    // Walk the same chain over native floats.
    let raw = [
        [[1.0f32, 2.0, 3.0, 0.0], [0.0f32, 0.0, 0.0, 1.0], [1.0f32, 1.0, 1.0, 1.0]],
        [[4.0f32, -5.0, 6.0, 0.0], [0.3f32, -0.1, 0.2, 0.95], [1.1f32, 0.9, 1.0, 1.0]],
        [[-7.0f32, 8.0, 9.5, 0.0], [0.05f32, 0.4, -0.2, 0.9], [1.0f32, 1.0, 1.2, 1.0]],
    ];
    let idx_parents = [-1i32, 0, 1];
    let mut acc = raw[2][0];
    let mut link = idx_parents[2];
    while link >= 0 && (link as usize) < raw.len() {
        let m = raw[link as usize];
        acc = skin_step_f32(acc, m[0], m[1], m[2]);
        link = idx_parents[link as usize];
    }
    assert_eq!(got.x, acc[0].to_bits());
    assert_eq!(got.y, acc[1].to_bits());
    assert_eq!(got.z, acc[2].to_bits());
}

#[test]
fn out_of_range_parent_ends_the_chain() {
    let m0 = mat([1.0, 2.0, 3.0, 0.0], [0.0, 0.0, 0.0, 1.0], [1.0, 1.0, 1.0, 1.0]);
    let mats = vec![m0];
    let parents: Vec<u32> = vec![17];
    let got = resolve_chain(&mats, &parents, 0);
    assert_eq!(got, m0.vec0);
}

#[test]
fn buffers_decode_little_endian() {
    let mut bytes: Vec<u8> = Vec::new();
    for k in 0..12u32 {
        bytes.extend_from_slice(&(k as f32).to_bits().to_le_bytes());
    }
    let mats = parse_bone_matrices(&bytes, 1);
    assert_eq!(mats.len(), 1);
    assert_eq!(mats[0].vec0, vec4(0.0, 1.0, 2.0, 3.0));
    assert_eq!(mats[0].vec1, vec4(4.0, 5.0, 6.0, 7.0));
    assert_eq!(mats[0].vec2, vec4(8.0, 9.0, 10.0, 11.0));

    let idx = vec![5u8, 0, 0, 0, 0xFF, 0xFF, 0xFF, 0xFF];
    let parents = parse_parent_indices(&idx, 2);
    assert_eq!(parents, vec![5u32, 0xFFFF_FFFF]);
}

#[test]
fn resolves_a_transform_from_foreign_memory() {
    let mut fp = FakeProcess::new(0x10000, 0x1000);
    let transform = 0x10100u64;
    let internal = 0x10200u64;
    let table = 0x10300u64;
    let matrix_base = 0x10400u64;
    let dep_table = 0x10500u64;

    fp.poke_u64(transform + 0x10, internal);
    fp.poke_u64(internal + 0x38, table);
    fp.poke_u32(internal + 0x40, 0); // leaf bone index 0
    fp.poke_u64(table + 0x18, matrix_base);
    fp.poke_u64(table + 0x20, dep_table);
    // One bone: translation row (11, 22, 33), parent -1.
    let row0 = [11.0f32, 22.0, 33.0, 0.0];
    for (i, v) in row0.iter().enumerate() {
        fp.poke_u32(matrix_base + (i as u64) * 4, v.to_bits());
    }
    fp.poke_u32(dep_table, (-1i32) as u32);

    let got = transform_to_world_space(&fp, transform).unwrap();
    assert_eq!(got.x, 11.0f32.to_bits());
    assert_eq!(got.y, 22.0f32.to_bits());
    assert_eq!(got.z, 33.0f32.to_bits());

    // A negative leaf index is a sanity violation.
    fp.poke_u32(internal + 0x40, (-2i32) as u32);
    assert_eq!(
        transform_to_world_space(&fp, transform),
        Err(DecodeError::SizeSanityViolation)
    );
}
