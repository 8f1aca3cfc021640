//! The camera decoder and the camera record.

use vstd::prelude::*;

use crate::error::DecodeError;
use crate::layout;
use crate::maths::Matrix44;
use crate::memory::{le_u32_at, offset_addr, read_u32, ForeignMemory};
use crate::unity::le32_at;

verus! {

/// Which view a camera record describes.
#[derive(Clone, Copy, Debug, PartialEq, Eq, Structural)]
pub enum CameraType {
    /// The primary first-person view.
    FpsCamera,
    /// The optic (scope) view, present only while aiming.
    OpticCamera,
}

/// One captured camera: its view/projection matrix, field of view in
/// degrees, aspect ratio, and role.
#[derive(Clone, Copy, Debug, PartialEq, Eq, Structural)]
pub struct Camera {
    pub matrix: Matrix44,
    pub fov: u32,
    pub aspect_ratio: u32,
    pub camera_type: CameraType,
}

/// The 4x4 matrix stored at the start of `bytes`, row by row.
pub fn parse_matrix44(bytes: &Vec<u8>) -> (r: Matrix44)
    requires
        bytes@.len() >= 64,
    ensures
        r == spec_matrix44_at(bytes@),
{
    Matrix44 {
        m11: le_u32_at(bytes, 0),
        m12: le_u32_at(bytes, 4),
        m13: le_u32_at(bytes, 8),
        m14: le_u32_at(bytes, 12),
        m21: le_u32_at(bytes, 16),
        m22: le_u32_at(bytes, 20),
        m23: le_u32_at(bytes, 24),
        m24: le_u32_at(bytes, 28),
        m31: le_u32_at(bytes, 32),
        m32: le_u32_at(bytes, 36),
        m33: le_u32_at(bytes, 40),
        m34: le_u32_at(bytes, 44),
        m41: le_u32_at(bytes, 48),
        m42: le_u32_at(bytes, 52),
        m43: le_u32_at(bytes, 56),
        m44: le_u32_at(bytes, 60),
    }
}

/// The 4x4 matrix at the start of `s`, row by row.
pub open spec fn spec_matrix44_at(s: Seq<u8>) -> Matrix44 {
    Matrix44 {
        m11: le32_at(s, 0),
        m12: le32_at(s, 4),
        m13: le32_at(s, 8),
        m14: le32_at(s, 12),
        m21: le32_at(s, 16),
        m22: le32_at(s, 20),
        m23: le32_at(s, 24),
        m24: le32_at(s, 28),
        m31: le32_at(s, 32),
        m32: le32_at(s, 36),
        m33: le32_at(s, 40),
        m34: le32_at(s, 44),
        m41: le32_at(s, 48),
        m42: le32_at(s, 52),
        m43: le32_at(s, 56),
        m44: le32_at(s, 60),
    }
}

/// The address of a camera's internal state.
#[derive(Clone, Copy, Debug, PartialEq, Eq, Structural)]
pub struct InternalCamera {
    pub address: u64,
}

impl InternalCamera {
    /// Reads the view/projection matrix.
    pub fn get_matrix<M: ForeignMemory>(&self, mem: &M) -> (r: Result<Matrix44, DecodeError>)
        ensures
            r matches Err(e) ==> e is ReadFailure,
    {
        let bytes = mem.read_bytes(offset_addr(self.address, layout::OFF_CAMERA_MATRIX)?, 64)?;
        Ok(parse_matrix44(&bytes))
    }

    /// Reads the field of view, in degrees.
    pub fn get_fov<M: ForeignMemory>(&self, mem: &M) -> (r: Result<u32, DecodeError>)
        ensures
            r matches Err(e) ==> e is ReadFailure,
    {
        read_u32(mem, offset_addr(self.address, layout::OFF_CAMERA_FOV)?)
    }

    /// Reads the aspect ratio.
    pub fn get_aspect_ratio<M: ForeignMemory>(&self, mem: &M) -> (r: Result<u32, DecodeError>)
        ensures
            r matches Err(e) ==> e is ReadFailure,
    {
        read_u32(mem, offset_addr(self.address, layout::OFF_CAMERA_ASPECT_RATIO)?)
    }
}

} // verus!
