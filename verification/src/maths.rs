//! Plain numeric aggregates: 2-, 3- and 4-component vectors and the 3x4 and
//! 4x4 matrices of the observed renderer.  Components are 32-bit float bit
//! patterns (see `float_bits`).  Component shuffles (`flip`, `transpose`) are
//! verified exactly; the metric operations state their results through the
//! named rounded operations.

use vstd::prelude::*;

use crate::float_bits::{
    add_bits, is_zero_bits, mul_bits, sqrt_bits, sub_bits, f32_add, f32_mul, f32_sqrt, f32_sub,
    F_MAGNITUDE_MASK, F_ZERO,
};

verus! {

/// One row triple of the bone table: translation, rotation, scale.
#[derive(Clone, Copy, Debug, PartialEq, Eq, Structural)]
pub struct Matrix34 {
    pub vec0: Vector4,
    pub vec1: Vector4,
    pub vec2: Vector4,
}

#[derive(Clone, Copy, Debug, PartialEq, Eq, Structural)]
pub struct Vector4 {
    pub x: u32,
    pub y: u32,
    pub z: u32,
    pub w: u32,
}

impl Vector4 {
    pub fn new(x: u32, y: u32, z: u32, w: u32) -> (r: Vector4)
        ensures
            r == (Vector4 { x, y, z, w }),
    {
        Vector4 { x, y, z, w }
    }
}

#[derive(Clone, Copy, Debug, PartialEq, Eq, Structural)]
pub struct Vector3 {
    pub x: u32,
    pub y: u32,
    pub z: u32,
}

/// The axis reorder that takes a position from the bone-resolution
/// convention to the rendering convention.
pub open spec fn flip_vector3(v: Vector3) -> Vector3 {
    Vector3 { x: v.z, y: v.x, z: v.y }
}

/// The all-zero position, used as an "uninitialized" sentinel.
pub open spec fn zero_vector3() -> Vector3 {
    Vector3 { x: F_ZERO, y: F_ZERO, z: F_ZERO }
}

/// A position is the zero sentinel when every component compares equal to
/// zero; both signed zeros do.
pub open spec fn is_zero_sentinel(v: Vector3) -> bool {
    is_zero_bits(v.x) && is_zero_bits(v.y) && is_zero_bits(v.z)
}

/// `sqrt((a.x-b.x)^2 + (a.y-b.y)^2 + (a.z-b.z)^2)`, each step one rounded
/// operation, squares taken as one multiplication.
pub open spec fn distance_bits(a: Vector3, b: Vector3) -> u32 {
    let dx = sub_bits(a.x, b.x);
    let dy = sub_bits(a.y, b.y);
    let dz = sub_bits(a.z, b.z);
    sqrt_bits(add_bits(add_bits(mul_bits(dx, dx), mul_bits(dy, dy)), mul_bits(dz, dz)))
}

/// `a.x*b.x + a.y*b.y + a.z*b.z`, each step one rounded operation,
/// summed left to right.
pub open spec fn dot_bits(a: Vector3, b: Vector3) -> u32 {
    add_bits(add_bits(mul_bits(a.x, b.x), mul_bits(a.y, b.y)), mul_bits(a.z, b.z))
}

impl Vector3 {
    pub fn new(x: u32, y: u32, z: u32) -> (r: Vector3)
        ensures
            r == (Vector3 { x, y, z }),
    {
        Vector3 { x, y, z }
    }

    /// Reorders the components to the rendering convention.
    pub fn flip(v: Vector3) -> (r: Vector3)
        ensures
            r == flip_vector3(v),
    {
        Vector3::new(v.z, v.x, v.y)
    }

    /// The all-zero position.
    pub fn default() -> (r: Vector3)
        ensures
            r == zero_vector3(),
    {
        Vector3::new(F_ZERO, F_ZERO, F_ZERO)
    }

    /// Whether this position is the zero sentinel, i.e. every component
    /// compares equal to `0.0`.
    pub fn is_zero(&self) -> (r: bool)
        ensures
            r == is_zero_sentinel(*self),
    {
        self.x & F_MAGNITUDE_MASK == 0 && self.y & F_MAGNITUDE_MASK == 0 && self.z
            & F_MAGNITUDE_MASK == 0
    }

    /// Euclidean distance between two points.
    pub fn distance(self, other: Vector3) -> (r: u32)
        ensures
            r == distance_bits(self, other),
    {
        let dx = f32_sub(self.x, other.x);
        let dy = f32_sub(self.y, other.y);
        let dz = f32_sub(self.z, other.z);
        let sum = f32_add(f32_add(f32_mul(dx, dx), f32_mul(dy, dy)), f32_mul(dz, dz));
        f32_sqrt(sum)
    }

    /// Dot product of two vectors.
    pub fn dot_product(&self, other: Vector3) -> (r: u32)
        ensures
            r == dot_bits(*self, other),
    {
        f32_add(
            f32_add(f32_mul(self.x, other.x), f32_mul(self.y, other.y)),
            f32_mul(self.z, other.z),
        )
    }
}

/// Flipping twice restores a vector exactly when its components are all
/// equal.  The flip is the three-cycle `(x, y, z) -> (z, x, y)`, so two
/// applications give `(y, z, x)`, which differs from the starting vector
/// whenever two of its components differ.
pub proof fn lemma_flip_round_trip(v: Vector3)
    requires
        v.x == v.y,
        v.y == v.z,
    ensures
        flip_vector3(flip_vector3(v)) == v,
{
}

#[derive(Clone, Copy, Debug, PartialEq, Eq, Structural)]
pub struct Vector2 {
    pub x: u32,
    pub y: u32,
}

/// The zero point, returned by the projector as a "do not draw" sentinel.
pub open spec fn zero_vector2() -> Vector2 {
    Vector2 { x: F_ZERO, y: F_ZERO }
}

impl Vector2 {
    pub fn new(x: u32, y: u32) -> (r: Vector2)
        ensures
            r == (Vector2 { x, y }),
    {
        Vector2 { x, y }
    }

    /// The zero point.
    pub fn zero() -> (r: Vector2)
        ensures
            r == zero_vector2(),
    {
        Vector2 { x: F_ZERO, y: F_ZERO }
    }
}

#[derive(Clone, Copy, Debug, PartialEq, Eq, Structural)]
pub struct Matrix44 {
    pub m11: u32,
    pub m12: u32,
    pub m13: u32,
    pub m14: u32,
    pub m21: u32,
    pub m22: u32,
    pub m23: u32,
    pub m24: u32,
    pub m31: u32,
    pub m32: u32,
    pub m33: u32,
    pub m34: u32,
    pub m41: u32,
    pub m42: u32,
    pub m43: u32,
    pub m44: u32,
}

/// The matrix with rows and columns exchanged.
pub open spec fn transpose_matrix44(m: Matrix44) -> Matrix44 {
    Matrix44 {
        m11: m.m11,
        m12: m.m21,
        m13: m.m31,
        m14: m.m41,
        m21: m.m12,
        m22: m.m22,
        m23: m.m32,
        m24: m.m42,
        m31: m.m13,
        m32: m.m23,
        m33: m.m33,
        m34: m.m43,
        m41: m.m14,
        m42: m.m24,
        m43: m.m34,
        m44: m.m44,
    }
}

impl Matrix44 {
    /// Exchanges rows and columns.
    pub fn transpose(&self) -> (r: Matrix44)
        ensures
            r == transpose_matrix44(*self),
    {
        Matrix44 {
            m11: self.m11,
            m12: self.m21,
            m13: self.m31,
            m14: self.m41,
            m21: self.m12,
            m22: self.m22,
            m23: self.m32,
            m24: self.m42,
            m31: self.m13,
            m32: self.m23,
            m33: self.m33,
            m34: self.m43,
            m41: self.m14,
            m42: self.m24,
            m43: self.m34,
            m44: self.m44,
        }
    }
}

/// Transposing twice restores the matrix.
pub proof fn lemma_transpose_round_trip(m: Matrix44)
    ensures
        transpose_matrix44(transpose_matrix44(m)) == m,
{
}

} // verus!
