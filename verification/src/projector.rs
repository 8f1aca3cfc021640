//! The projector: a world-space point through an observer's camera
//! matrices into screen pixel coordinates.
//!
//! The whole computation is stated exactly over the named rounded
//! operations; the two "do not draw" sentinel cases — an uninitialized
//! position and a point at or behind the camera plane — are proved to
//! return the zero point whatever the other inputs are.

use vstd::prelude::*;

use crate::camera::Camera;
use crate::float_bits::{add_bits, cos_bits, div_bits, lt_bits, mul_bits, sin_bits, sub_bits,
    f32_add, f32_cos, f32_div, f32_lt, f32_mul, f32_sin, f32_sub, F_DEG_180, F_HALF, F_ONE, F_PI,
    F_TENTH, F_TWO};
use crate::maths::{dot_bits, is_zero_sentinel, transpose_matrix44, zero_vector2, Matrix44,
    Vector2, Vector3};
use crate::models::{LocalPlayer, Player};
use vstd::pervasive::unreached;

verus! {

/// The primary field of view whose aiming correction is overridden.
pub const F_FOV_PRIMARY_SPECIAL: u32 = 0x420C_0000;

/// The optic field of view (as reported) that triggers the override.
pub const F_FOV_OPTIC_SPECIAL: u32 = 0x419B_3333;

/// The corrected field of view substituted for the special pair.
pub const F_FOV_CORRECTED: u32 = 0x4248_0000;

/// The field of view the aiming correction uses: the primary camera's own
/// value, except for one optic whose reported field of view is wrong —
/// primary exactly 35 degrees with optic exactly 19.4 degrees is corrected
/// to 50 degrees.
pub open spec fn spec_effective_fov(primary: u32, optic: u32) -> u32 {
    if primary == F_FOV_PRIMARY_SPECIAL && optic == F_FOV_OPTIC_SPECIAL {
        F_FOV_CORRECTED
    } else {
        primary
    }
}

/// Picks the field of view for the aiming correction
/// (`spec_effective_fov` states the override exactly).
pub fn effective_fov(primary_fov: u32, optic_fov: u32) -> (r: u32)
    ensures
        r == spec_effective_fov(primary_fov, optic_fov),
{
    if primary_fov == F_FOV_PRIMARY_SPECIAL && optic_fov == F_FOV_OPTIC_SPECIAL {
        F_FOV_CORRECTED
    } else {
        primary_fov
    }
}

/// The translation row of a transposed camera matrix.
pub open spec fn translation_of(mt: Matrix44) -> Vector3 {
    Vector3 { x: mt.m41, y: mt.m42, z: mt.m43 }
}

/// The depth of a point against a transposed camera matrix.
pub open spec fn spec_w(mt: Matrix44, location: Vector3) -> u32 {
    add_bits(dot_bits(translation_of(mt), location), mt.m44)
}

/// The camera matrix the projection uses: the optic camera's only while
/// the observer aims and an optic was captured this cycle.
pub open spec fn spec_chosen_matrix(is_aiming: bool, fps: Camera, optic: Option<Camera>) -> Matrix44 {
    match optic {
        Option::Some(o) => if is_aiming {
            o.matrix
        } else {
            fps.matrix
        },
        Option::None => fps.matrix,
    }
}

/// Half the field-of-view angle, in radians.
pub open spec fn spec_half_angle(fov: u32) -> u32 {
    mul_bits(mul_bits(div_bits(F_PI, F_DEG_180), fov), F_HALF)
}

/// The cotangent of the half angle, computed as cosine over sine.
pub open spec fn spec_cotangent(fov: u32) -> u32 {
    div_bits(cos_bits(spec_half_angle(fov)), sin_bits(spec_half_angle(fov)))
}

/// One final screen coordinate: `extent/2 * (1 + v/w)`.
pub open spec fn spec_screen_coord_x(extent: u32, v: u32, w: u32) -> u32 {
    mul_bits(div_bits(extent, F_TWO), add_bits(F_ONE, div_bits(v, w)))
}

/// One final screen coordinate: `extent/2 * (1 - v/w)`.
pub open spec fn spec_screen_coord_y(extent: u32, v: u32, w: u32) -> u32 {
    mul_bits(div_bits(extent, F_TWO), sub_bits(F_ONE, div_bits(v, w)))
}

/// The whole projection, as a function of the target's position, the
/// observer's aiming flag and cameras, and the screen size.
pub open spec fn spec_world_to_screen(
    location: Vector3,
    is_aiming: bool,
    fps: Camera,
    optic: Option<Camera>,
    screen_width: u32,
    screen_height: u32,
) -> Vector2 {
    let aiming = is_aiming && optic is Some;
    let mt = transpose_matrix44(spec_chosen_matrix(is_aiming, fps, optic));
    let w = spec_w(mt, location);
    if is_zero_sentinel(location) {
        zero_vector2()
    } else if lt_bits(w, F_TENTH) {
        zero_vector2()
    } else {
        let x0 = add_bits(dot_bits(Vector3 { x: mt.m21, y: mt.m22, z: mt.m23 }, location), mt.m24);
        let y0 = add_bits(dot_bits(Vector3 { x: mt.m11, y: mt.m12, z: mt.m13 }, location), mt.m14);
        let x = if aiming {
            let ctg = spec_cotangent(
                spec_effective_fov(
                    fps.fov,
                    match optic {
                        Option::Some(o) => o.fov,
                        Option::None => fps.fov,
                    },
                ),
            );
            div_bits(x0, mul_bits(mul_bits(ctg, fps.aspect_ratio), F_HALF))
        } else {
            x0
        };
        let y = if aiming {
            let ctg = spec_cotangent(
                spec_effective_fov(
                    fps.fov,
                    match optic {
                        Option::Some(o) => o.fov,
                        Option::None => fps.fov,
                    },
                ),
            );
            div_bits(y0, mul_bits(ctg, F_HALF))
        } else {
            y0
        };
        Vector2 {
            x: spec_screen_coord_x(screen_width, x, w),
            y: spec_screen_coord_y(screen_height, y, w),
        }
    }
}

/// The projector returns the zero sentinel for an uninitialized position,
/// and for a point whose depth against the chosen camera is below the
/// near-plane threshold — whatever the other inputs are.
pub proof fn lemma_projector_sentinel(
    location: Vector3,
    is_aiming: bool,
    fps: Camera,
    optic: Option<Camera>,
    screen_width: u32,
    screen_height: u32,
)
    ensures
        is_zero_sentinel(location) ==> spec_world_to_screen(
            location,
            is_aiming,
            fps,
            optic,
            screen_width,
            screen_height,
        ) == zero_vector2(),
        lt_bits(
            spec_w(transpose_matrix44(spec_chosen_matrix(is_aiming, fps, optic)), location),
            F_TENTH,
        ) ==> spec_world_to_screen(
            location,
            is_aiming,
            fps,
            optic,
            screen_width,
            screen_height,
        ) == zero_vector2(),
{
}

/// Projects a target's position through the observer's camera into screen
/// pixel coordinates.  Returns the zero point as a "do not draw" sentinel
/// for an uninitialized position or a point at or behind the camera
/// plane.
pub fn world_to_screen(
    player: &Player,
    local_player: &Player,
    local_player_kind: &LocalPlayer,
    screen_width: u32,
    screen_height: u32,
) -> (r: Vector2)
    requires
        local_player_kind.fps_camera is Some,
    ensures
        local_player_kind.fps_camera matches Some(f) ==> r == spec_world_to_screen(
            player.location,
            local_player.is_aiming,
            f,
            local_player_kind.optic_camera,
            screen_width,
            screen_height,
        ),
{
    let location = player.location;
    let fps_camera = match &local_player_kind.fps_camera {
        Some(c) => c,
        None => unreached(),
    };
    let aiming = local_player.is_aiming && local_player_kind.optic_camera.is_some();

    if location.is_zero() {
        return Vector2::zero();
    }

    let matrix = if aiming {
        match &local_player_kind.optic_camera {
            Some(c) => c.matrix,
            None => unreached(),
        }
    } else {
        fps_camera.matrix
    };
    let translated_matrix = matrix.transpose();
    let translation_vector = Vector3::new(
        translated_matrix.m41,
        translated_matrix.m42,
        translated_matrix.m43,
    );

    let w = f32_add(translation_vector.dot_product(location), translated_matrix.m44);

    if f32_lt(w, F_TENTH) {
        return Vector2::zero();
    }

    let up = Vector3::new(translated_matrix.m21, translated_matrix.m22, translated_matrix.m23);
    let right = Vector3::new(translated_matrix.m11, translated_matrix.m12, translated_matrix.m13);

    let mut x = f32_add(up.dot_product(location), translated_matrix.m24);
    let mut y = f32_add(right.dot_product(location), translated_matrix.m14);

    if aiming {
        let optic_camera = match &local_player_kind.optic_camera {
            Some(c) => c,
            None => unreached(),
        };
        let fov = effective_fov(fps_camera.fov, optic_camera.fov);

        let angle_rad_half = f32_mul(f32_mul(f32_div(F_PI, F_DEG_180), fov), F_HALF);
        let angle_ctg = f32_div(f32_cos(angle_rad_half), f32_sin(angle_rad_half));

        x = f32_div(x, f32_mul(f32_mul(angle_ctg, fps_camera.aspect_ratio), F_HALF));
        y = f32_div(y, f32_mul(angle_ctg, F_HALF));
    }

    let screen_x = f32_mul(f32_div(screen_width, F_TWO), f32_add(F_ONE, f32_div(x, w)));
    let screen_y = f32_mul(f32_div(screen_height, F_TWO), f32_sub(F_ONE, f32_div(y, w)));

    Vector2::new(screen_x, screen_y)
}

} // verus!
