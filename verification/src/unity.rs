//! The tagged-object lists and the hierarchical transform resolver of the
//! observed runtime.
//!
//! `transform_to_world_space` reconstructs a bone's world-space position:
//! it reads the posed bone-matrix table and the parallel parent-index table
//! as raw bytes, then folds the engine's skinning composition over the
//! parent chain, starting at the leaf bone.  The composition must match the
//! external renderer's own formula outcome for outcome, so each step is
//! stated exactly over the named rounded operations.

use vstd::prelude::*;
use vstd::bytes::spec_u32_from_le_bytes;

use crate::error::DecodeError;
use crate::float_bits::{add_bits, f32_add, f32_mul, f32_sub, mul_bits, sub_bits, F_NEG_TWO,
    F_TWO, F_ZERO};
use crate::layout;
use crate::maths::{Matrix34, Vector3, Vector4};
use crate::memory::{le_u32_at, le_u64_at, offset_addr, read_string, read_u32, read_u64,
    ForeignMemory};
use crate::text::eq_ignore_ascii_case;

verus! {

/// One node of a tagged object list.
#[derive(Clone, Copy, Debug, PartialEq, Eq, Structural)]
pub struct BaseObject {
    pub previous_object_link: u64,
    pub next_object_link: u64,
    pub actual_object: u64,
}

/// Reads one list node.
pub fn read_base_object<M: ForeignMemory>(mem: &M, address: u64) -> (r: Result<
    BaseObject,
    DecodeError,
>)
    ensures
        r matches Err(e) ==> e is ReadFailure,
{
    let bytes = mem.read_bytes(address, 24)?;
    Ok(
        BaseObject {
            previous_object_link: le_u64_at(&bytes, 0),
            next_object_link: le_u64_at(&bytes, 8),
            actual_object: le_u64_at(&bytes, 16),
        },
    )
}

/// The header of a game object's component array.
#[derive(Clone, Copy, Debug, PartialEq, Eq, Structural)]
pub struct ComponentArray {
    pub array_base: u64,
    pub mem_label_id: u64,
    pub size: u64,
    pub capacity: u64,
}

/// Reads one component array header.
pub fn read_component_array<M: ForeignMemory>(mem: &M, address: u64) -> (r: Result<
    ComponentArray,
    DecodeError,
>)
    ensures
        r matches Err(e) ==> e is ReadFailure,
{
    let bytes = mem.read_bytes(address, 32)?;
    Ok(
        ComponentArray {
            array_base: le_u64_at(&bytes, 0),
            mem_label_id: le_u64_at(&bytes, 8),
            size: le_u64_at(&bytes, 16),
            capacity: le_u64_at(&bytes, 24),
        },
    )
}

/// One decoded component: its class name, namespace and class address.
#[derive(Clone, Debug, PartialEq, Eq)]
pub struct Component {
    pub name: Vec<u8>,
    pub namespace: Vec<u8>,
    pub address: u64,
}

/// Walks a tagged object list for an object whose name matches
/// `object_name` up to ASCII case, and returns that object's address.
///
/// A node whose name cannot be read is skipped; a broken node link fails
/// the search.  The walk gives up after `LIST_SCAN_CEILING` nodes so that a
/// cyclic list cannot hang the session.
pub fn find_object<M: ForeignMemory>(mem: &M, first_object: u64, object_name: &Vec<u8>) -> (r:
    Result<u64, DecodeError>)
    ensures
        r matches Err(e) ==> e is ReadFailure || e is LookupFailure,
{
    let mut node = read_base_object(mem, first_object)?;
    if node.actual_object == 0 {
        return Err(DecodeError::LookupFailure);
    }
    let mut scanned: usize = 0;
    while scanned < layout::LIST_SCAN_CEILING
        decreases layout::LIST_SCAN_CEILING - scanned,
    {
        let name_address = offset_addr(node.actual_object, layout::OFF_OBJECT_NAME)?;
        let entity_name_ptr = read_u64(mem, name_address)?;
        let entity_name = read_string(mem, entity_name_ptr, object_name.len());
        match entity_name {
            Ok(name) => {
                if eq_ignore_ascii_case(&name, object_name) {
                    return Ok(node.actual_object);
                }
            },
            Err(_) => {},
        }
        node = read_base_object(mem, node.next_object_link)?;
        scanned = scanned + 1;
    }
    Err(DecodeError::LookupFailure)
}

/// Decodes every component of a game object: name, namespace, class
/// address.  Names and namespaces are read with the shared length limit,
/// so each comes back capped and free of zero bytes.
pub fn get_components<M: ForeignMemory>(mem: &M, game_object: u64) -> (r: Result<
    Vec<Component>,
    DecodeError,
>)
    ensures
        r matches Ok(v) ==> v@.len() <= layout::COMPONENT_COUNT_CEILING,
        r matches Ok(v) ==> forall|i: int|
            0 <= i < v@.len() ==> (#[trigger] v@[i]).name@.len() <= layout::NAME_READ_LIMIT
                && v@[i].namespace@.len() <= layout::NAME_READ_LIMIT,
        r matches Err(e) ==> e is ReadFailure || e is SizeSanityViolation,
{
    let array_address = offset_addr(game_object, layout::OFF_OBJECT_COMPONENTS)?;
    let component_array = read_component_array(mem, array_address)?;
    if component_array.size > layout::COMPONENT_COUNT_CEILING {
        return Err(DecodeError::SizeSanityViolation);
    }
    let mut class_hops: Vec<u64> = Vec::new();
    class_hops.push(0);
    class_hops.push(0);
    let mut out: Vec<Component> = Vec::new();
    let mut i: u64 = 0;
    while i < component_array.size
        invariant
            component_array.size <= layout::COMPONENT_COUNT_CEILING,
            i <= component_array.size,
            out@.len() == i,
            forall|k: int|
                0 <= k < i ==> (#[trigger] out@[k]).name@.len() <= layout::NAME_READ_LIMIT
                    && out@[k].namespace@.len() <= layout::NAME_READ_LIMIT,
        decreases component_array.size - i,
    {
        let slot_address = offset_addr(
            component_array.array_base,
            i * layout::COMPONENT_SLOT_STRIDE + layout::OFF_COMPONENT_IN_SLOT,
        )?;
        let component_address = read_u64(mem, slot_address)?;
        let class_slot = offset_addr(component_address, layout::OFF_COMPONENT_CLASS)?;
        let component_class_address = read_u64(mem, class_slot)?;
        let mono_class = crate::memory::read_sequence(mem, component_class_address, &class_hops)?;
        let name_ptr = read_u64(mem, offset_addr(mono_class, layout::OFF_CLASS_NAME)?)?;
        let namespace_ptr = read_u64(mem, offset_addr(mono_class, layout::OFF_CLASS_NAMESPACE)?)?;
        let name = read_string(mem, name_ptr, layout::NAME_READ_LIMIT)?;
        let namespace = read_string(mem, namespace_ptr, layout::NAME_READ_LIMIT)?;
        out.push(Component { name, namespace, address: component_class_address });
        i = i + 1;
    }
    Ok(out)
}

// --- the skinning composition -------------------------------------------

/// One lane of the skinning composition.  `x`, `y`, `z` are the rotation
/// components; `a`, `b`, `c` the lane's three shuffled rotation picks;
/// `k0`, `k1`, `k2` the lane's three sign/scale constants; `t0`, `t1`, `t2`
/// the three broadcast scale products; `tl` the lane's own scale product;
/// `base` the lane's translation component.
pub open spec fn skin_lane_bits(
    x: u32,
    y: u32,
    z: u32,
    a: u32,
    b: u32,
    c: u32,
    k0: u32,
    k1: u32,
    k2: u32,
    t0: u32,
    t1: u32,
    t2: u32,
    tl: u32,
    base: u32,
) -> u32 {
    let pa = mul_bits(sub_bits(mul_bits(mul_bits(x, k1), a), mul_bits(mul_bits(y, k2), b)), t2);
    let pb = mul_bits(sub_bits(mul_bits(mul_bits(z, k2), b), mul_bits(mul_bits(x, k0), c)), t1);
    let pc = mul_bits(sub_bits(mul_bits(mul_bits(y, k0), c), mul_bits(mul_bits(z, k1), a)), t0);
    add_bits(add_bits(add_bits(pa, pb), add_bits(pc, tl)), base)
}

/// One step of the bone chain: composes the accumulated position with one
/// bone's translation/rotation/scale rows, exactly as the renderer's
/// shuffled multiply-add sequence does.
pub open spec fn skin_step_bits(prev: Vector4, m: Matrix34) -> Vector4 {
    let q = m.vec1;
    let s = m.vec2;
    let t0 = mul_bits(s.x, prev.x);
    let t1 = mul_bits(s.y, prev.y);
    let t2 = mul_bits(s.z, prev.z);
    let t3 = mul_bits(s.w, prev.w);
    Vector4 {
        x: skin_lane_bits(
            q.x,
            q.y,
            q.z,
            q.z,
            q.w,
            q.y,
            F_NEG_TWO,
            F_TWO,
            F_NEG_TWO,
            t0,
            t1,
            t2,
            t0,
            m.vec0.x,
        ),
        y: skin_lane_bits(
            q.x,
            q.y,
            q.z,
            q.w,
            q.z,
            q.x,
            F_TWO,
            F_NEG_TWO,
            F_NEG_TWO,
            t0,
            t1,
            t2,
            t1,
            m.vec0.y,
        ),
        z: skin_lane_bits(
            q.x,
            q.y,
            q.z,
            q.x,
            q.y,
            q.w,
            F_NEG_TWO,
            F_NEG_TWO,
            F_TWO,
            t0,
            t1,
            t2,
            t2,
            m.vec0.z,
        ),
        w: skin_lane_bits(
            q.x,
            q.y,
            q.z,
            q.z,
            q.w,
            q.y,
            F_ZERO,
            F_ZERO,
            F_ZERO,
            t0,
            t1,
            t2,
            t3,
            m.vec0.w,
        ),
    }
}

/// Computes one lane of the skinning composition.
fn skin_lane(
    x: u32,
    y: u32,
    z: u32,
    a: u32,
    b: u32,
    c: u32,
    k0: u32,
    k1: u32,
    k2: u32,
    t0: u32,
    t1: u32,
    t2: u32,
    tl: u32,
    base: u32,
) -> (r: u32)
    ensures
        r == skin_lane_bits(x, y, z, a, b, c, k0, k1, k2, t0, t1, t2, tl, base),
{
    let pa = f32_mul(f32_sub(f32_mul(f32_mul(x, k1), a), f32_mul(f32_mul(y, k2), b)), t2);
    let pb = f32_mul(f32_sub(f32_mul(f32_mul(z, k2), b), f32_mul(f32_mul(x, k0), c)), t1);
    let pc = f32_mul(f32_sub(f32_mul(f32_mul(y, k0), c), f32_mul(f32_mul(z, k1), a)), t0);
    f32_add(f32_add(f32_add(pa, pb), f32_add(pc, tl)), base)
}

/// Computes one step of the bone chain.
pub fn skin_step(prev: &Vector4, m: &Matrix34) -> (r: Vector4)
    ensures
        r == skin_step_bits(*prev, *m),
{
    let q = m.vec1;
    let s = m.vec2;
    let t0 = f32_mul(s.x, prev.x);
    let t1 = f32_mul(s.y, prev.y);
    let t2 = f32_mul(s.z, prev.z);
    let t3 = f32_mul(s.w, prev.w);
    Vector4 {
        x: skin_lane(q.x, q.y, q.z, q.z, q.w, q.y, F_NEG_TWO, F_TWO, F_NEG_TWO, t0, t1, t2, t0, m.vec0.x),
        y: skin_lane(q.x, q.y, q.z, q.w, q.z, q.x, F_TWO, F_NEG_TWO, F_NEG_TWO, t0, t1, t2, t1, m.vec0.y),
        z: skin_lane(q.x, q.y, q.z, q.x, q.y, q.w, F_NEG_TWO, F_NEG_TWO, F_TWO, t0, t1, t2, t2, m.vec0.z),
        w: skin_lane(q.x, q.y, q.z, q.z, q.w, q.y, F_ZERO, F_ZERO, F_ZERO, t0, t1, t2, t3, m.vec0.w),
    }
}

// --- buffer decoding ------------------------------------------------------

/// The little-endian `u32` at byte offset `off`.
pub open spec fn le32_at(s: Seq<u8>, off: int) -> u32 {
    spec_u32_from_le_bytes(s.subrange(off, off + 4))
}

/// The four-component vector stored at byte offset `off`.
pub open spec fn vector4_at(s: Seq<u8>, off: int) -> Vector4 {
    Vector4 {
        x: le32_at(s, off),
        y: le32_at(s, off + 4),
        z: le32_at(s, off + 8),
        w: le32_at(s, off + 12),
    }
}

/// The 3x4 bone matrix stored at byte offset `off`: translation, rotation,
/// scale.
pub open spec fn matrix34_at(s: Seq<u8>, off: int) -> Matrix34 {
    Matrix34 {
        vec0: vector4_at(s, off),
        vec1: vector4_at(s, off + 16),
        vec2: vector4_at(s, off + 32),
    }
}

/// Reinterprets a raw byte buffer as `count` bone matrices.
pub fn parse_bone_matrices(bytes: &Vec<u8>, count: usize) -> (r: Vec<Matrix34>)
    requires
        count * layout::BONE_MATRIX_STRIDE <= bytes@.len(),
    ensures
        r@.len() == count,
        forall|i: int|
            0 <= i < count ==> r@[i] == matrix34_at(bytes@, i * layout::BONE_MATRIX_STRIDE),
{
    let n = bytes.len();
    let mut out: Vec<Matrix34> = Vec::new();
    let mut i: usize = 0;
    let mut off: usize = 0;
    while i < count
        invariant
            n == bytes@.len(),
            count * layout::BONE_MATRIX_STRIDE <= n,
            i <= count,
            off == i * layout::BONE_MATRIX_STRIDE,
            out@.len() == i,
            forall|k: int|
                0 <= k < i ==> out@[k] == matrix34_at(bytes@, k * layout::BONE_MATRIX_STRIDE),
        decreases count - i,
    {
        proof {
            assert(off + layout::BONE_MATRIX_STRIDE <= count * layout::BONE_MATRIX_STRIDE
                && (i + 1) * layout::BONE_MATRIX_STRIDE == off + layout::BONE_MATRIX_STRIDE)
                by (nonlinear_arith)
                requires
                    i < count,
                    off == i * layout::BONE_MATRIX_STRIDE,
                    layout::BONE_MATRIX_STRIDE == 48,
            ;
        }
        let vec0 = Vector4 {
            x: le_u32_at(bytes, off),
            y: le_u32_at(bytes, off + 4),
            z: le_u32_at(bytes, off + 8),
            w: le_u32_at(bytes, off + 12),
        };
        let vec1 = Vector4 {
            x: le_u32_at(bytes, off + 16),
            y: le_u32_at(bytes, off + 20),
            z: le_u32_at(bytes, off + 24),
            w: le_u32_at(bytes, off + 28),
        };
        let vec2 = Vector4 {
            x: le_u32_at(bytes, off + 32),
            y: le_u32_at(bytes, off + 36),
            z: le_u32_at(bytes, off + 40),
            w: le_u32_at(bytes, off + 44),
        };
        out.push(Matrix34 { vec0, vec1, vec2 });
        i = i + 1;
        off = off + layout::BONE_MATRIX_STRIDE;
    }
    out
}

/// Reinterprets a raw byte buffer as `count` parent indices.  An index is
/// kept as its raw 32-bit pattern; values with the high bit set are the
/// negative "chain end" markers.
pub fn parse_parent_indices(bytes: &Vec<u8>, count: usize) -> (r: Vec<u32>)
    requires
        count * layout::PARENT_INDEX_STRIDE <= bytes@.len(),
    ensures
        r@.len() == count,
        forall|i: int|
            0 <= i < count ==> r@[i] == le32_at(bytes@, i * layout::PARENT_INDEX_STRIDE),
{
    let n = bytes.len();
    let mut out: Vec<u32> = Vec::new();
    let mut i: usize = 0;
    let mut off: usize = 0;
    while i < count
        invariant
            n == bytes@.len(),
            count * layout::PARENT_INDEX_STRIDE <= n,
            i <= count,
            off == i * layout::PARENT_INDEX_STRIDE,
            out@.len() == i,
            forall|k: int|
                0 <= k < i ==> out@[k] == le32_at(bytes@, k * layout::PARENT_INDEX_STRIDE),
        decreases count - i,
    {
        proof {
            assert(off + layout::PARENT_INDEX_STRIDE <= count * layout::PARENT_INDEX_STRIDE
                && (i + 1) * layout::PARENT_INDEX_STRIDE == off + layout::PARENT_INDEX_STRIDE)
                by (nonlinear_arith)
                requires
                    i < count,
                    off == i * layout::PARENT_INDEX_STRIDE,
                    layout::PARENT_INDEX_STRIDE == 4,
            ;
        }
        out.push(le_u32_at(bytes, off));
        i = i + 1;
        off = off + layout::PARENT_INDEX_STRIDE;
    }
    out
}

// --- the chain fold ---------------------------------------------------------

/// Folds the skinning composition up the parent chain, starting from the
/// accumulated value `acc` at link `link`.  The fold stops at a negative
/// link (high bit set), at a link outside the table, or when the fuel runs
/// out (a cyclic table).
pub open spec fn chain_from(
    mats: Seq<Matrix34>,
    parents: Seq<u32>,
    acc: Vector4,
    link: u32,
    fuel: nat,
) -> Vector4
    decreases fuel,
{
    if fuel == 0 || link >= 0x8000_0000u32 || link >= mats.len() {
        acc
    } else {
        chain_from(
            mats,
            parents,
            skin_step_bits(acc, mats[link as int]),
            parents[link as int],
            (fuel - 1) as nat,
        )
    }
}

/// The resolved position of bone `start`: its own translation row, folded
/// with each ancestor's rows up the parent chain.
pub open spec fn spec_resolved_position(mats: Seq<Matrix34>, parents: Seq<u32>, start: int) -> Vector4 {
    chain_from(
        mats,
        parents,
        mats[start].vec0,
        parents[start],
        layout::CHAIN_STEP_CEILING as nat,
    )
}

/// Folds the skinning composition up the parent chain from bone `start`.
pub fn resolve_chain(mats: &Vec<Matrix34>, parents: &Vec<u32>, start: usize) -> (r: Vector4)
    requires
        parents@.len() == mats@.len(),
        start < mats@.len(),
    ensures
        r == spec_resolved_position(mats@, parents@, start as int),
{
    let mut acc = mats[start].vec0;
    let mut link = parents[start];
    let mut fuel: usize = layout::CHAIN_STEP_CEILING;
    while fuel > 0 && link < 0x8000_0000u32 && (link as usize) < mats.len()
        invariant
            parents@.len() == mats@.len(),
            start < mats@.len(),
            chain_from(mats@, parents@, acc, link, fuel as nat) == spec_resolved_position(
                mats@,
                parents@,
                start as int,
            ),
        decreases fuel,
    {
        let idx = link as usize;
        acc = skin_step(&acc, &mats[idx]);
        link = parents[idx];
        fuel = fuel - 1;
    }
    acc
}

/// Resolves a transform handle to a world-space position.
///
/// Reads the internal transform, the bone-matrix buffer and the parallel
/// parent-index buffer, rejects buffer sizes above the sanity ceiling, and
/// folds the skinning composition up the parent chain (`resolve_chain`,
/// whose contract states the fold exactly).  The position is the first
/// three lanes of the fold's result, in the unflipped bone convention.
pub fn transform_to_world_space<M: ForeignMemory>(mem: &M, transform: u64) -> (r: Result<
    Vector3,
    DecodeError,
>)
    ensures
        r matches Err(e) ==> e is ReadFailure || e is SizeSanityViolation,
{
    let transform_internal = read_u64(mem, offset_addr(transform, layout::OFF_TRANSFORM_INTERNAL)?)?;
    let table = read_u64(mem, offset_addr(transform_internal, layout::OFF_TRANSFORM_MATRIX_TABLE)?)?;
    let index_raw = read_u32(mem, offset_addr(transform_internal, layout::OFF_TRANSFORM_INDEX)?)?;
    let matrix_base = read_u64(mem, offset_addr(table, layout::OFF_MATRIX_BUFFER)?)?;
    let dep_table = read_u64(mem, offset_addr(table, layout::OFF_PARENT_INDEX_BUFFER)?)?;
    if index_raw >= 0x8000_0000u32 {
        return Err(DecodeError::SizeSanityViolation);
    }
    let count: u64 = index_raw as u64 + 1;
    proof {
        assert(count * (layout::BONE_MATRIX_STRIDE as u64) <= 0x8000_0000u64 * 48 && count * (
        layout::PARENT_INDEX_STRIDE as u64) <= 0x8000_0000u64 * 4) by (nonlinear_arith)
            requires
                count <= 0x8000_0000u64,
                layout::BONE_MATRIX_STRIDE == 48,
                layout::PARENT_INDEX_STRIDE == 4,
        ;
    }
    let matrices_size: u64 = count * layout::BONE_MATRIX_STRIDE as u64;
    let indices_size: u64 = count * layout::PARENT_INDEX_STRIDE as u64;
    if matrices_size > layout::TRANSFORM_SIZE_CEILING as u64 || indices_size
        > layout::TRANSFORM_SIZE_CEILING as u64 {
        return Err(DecodeError::SizeSanityViolation);
    }
    let indices_buffer = mem.read_bytes(dep_table, indices_size as usize)?;
    let matrices_buffer = mem.read_bytes(matrix_base, matrices_size as usize)?;
    let mats = parse_bone_matrices(&matrices_buffer, count as usize);
    let parents = parse_parent_indices(&indices_buffer, count as usize);
    let resolved = resolve_chain(&mats, &parents, index_raw as usize);
    Ok(Vector3 { x: resolved.x, y: resolved.y, z: resolved.z })
}

} // verus!
