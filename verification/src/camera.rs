//! The camera pose: an azimuth wrapped onto one full turn and an
//! elevation clamped into a band strictly inside the vertical poles.

use vstd::prelude::*;
use crate::fixed::{
    clamp_spec, clamp_i64, cos_fp, cos_fp_spec, sat_add_spec, sat_add, sin_fp, sin_fp_spec,
    wrap_angle_spec, wrap_angle, Vec3, ANGLE_FULL_TURN, ELEVATION_MAX, ELEVATION_MIN, TRIG_SCALE,
};

verus! {

/// A camera orientation in fixed-point angle units.
#[derive(Clone, Copy, PartialEq, Eq, Structural, Debug)]
pub struct Camera {
    pub azimuth: i64,
    pub elevation: i64,
}

/// The pose `Camera::update` produces: azimuth advanced and wrapped onto
/// a full turn, elevation advanced (saturating) and clamped into the
/// band `[ELEVATION_MIN, ELEVATION_MAX]`.
pub open spec fn camera_update_spec(c: Camera, azimuth_delta: int, elevation_delta: int) -> Camera {
    Camera {
        azimuth: wrap_angle_spec(c.azimuth + azimuth_delta) as i64,
        elevation: clamp_spec(
            sat_add_spec(c.elevation as int, elevation_delta),
            ELEVATION_MIN as int,
            ELEVATION_MAX as int,
        ) as i64,
    }
}

impl Camera {
    /// A valid pose: azimuth on one turn, elevation inside the band.
    pub open spec fn wf(&self) -> bool {
        &&& 0 <= self.azimuth < ANGLE_FULL_TURN
    &&& ELEVATION_MIN <= self.elevation <= ELEVATION_MAX
    }

    /// Builds a pose from arbitrary angles by wrapping and clamping.
    pub fn new(azimuth: i64, elevation: i64) -> (r: Camera)
        ensures
            r.azimuth as int == wrap_angle_spec(azimuth as int),
            r.elevation as int == clamp_spec(
                elevation as int,
                ELEVATION_MIN as int,
                ELEVATION_MAX as int,
            ),
            r.wf(),
    {
        Camera {
            azimuth: wrap_angle(azimuth),
            elevation: clamp_i64(elevation, ELEVATION_MIN, ELEVATION_MAX),
        }
    }

    /// Integrates a view delta into the pose. Whatever the accumulated
    /// delta's magnitude, the resulting elevation stays in the band
    /// strictly inside the poles.
    pub fn update(&self, azimuth_delta: i64, elevation_delta: i64) -> (r: Camera)
        requires
            self.wf(),
        ensures
            r == camera_update_spec(*self, azimuth_delta as int, elevation_delta as int),
            r.wf(),
    {
        let wrapped_delta = wrap_angle(azimuth_delta);
        let azimuth = wrap_angle(self.azimuth + wrapped_delta);
        proof {
            let m = ANGLE_FULL_TURN as int;
            vstd::arithmetic::div_mod::lemma_small_mod(self.azimuth as nat, m as nat);
            vstd::arithmetic::div_mod::lemma_add_mod_noop(
                self.azimuth as int,
                azimuth_delta as int,
                m,
            );
        }
        let elevation = clamp_i64(
            sat_add(self.elevation, elevation_delta),
            ELEVATION_MIN,
            ELEVATION_MAX,
        );
        Camera { azimuth, elevation }
    }

    /// The direction the camera looks along, in `TRIG_SCALE` units.
    pub fn view_direction(&self) -> (r: Vec3)
        requires
            self.wf(),
        ensures
            r == view_direction_spec(self.azimuth as int, self.elevation as int),
            -TRIG_SCALE <= r.x <= TRIG_SCALE,
            -TRIG_SCALE <= r.y <= TRIG_SCALE,
            -TRIG_SCALE <= r.z <= TRIG_SCALE,
    {
        to_view_direction(self.azimuth, self.elevation)
    }
}

/// The unit-scale view direction for a given azimuth and elevation:
/// elevation `0` looks at the downward pole, a half turn at the upward
/// pole, and the azimuth turns the flat component.
pub open spec fn view_direction_spec(azimuth: int, elevation: int) -> Vec3 {
    Vec3 {
        x: ((sin_fp_spec(elevation) * cos_fp_spec(azimuth)) / (TRIG_SCALE as int)) as i64,
        y: (-cos_fp_spec(elevation)) as i64,
        z: (-((sin_fp_spec(elevation) * sin_fp_spec(azimuth)) / (TRIG_SCALE as int))) as i64,
    }
}

/// Computes `view_direction_spec` for angles already on one turn.
pub fn to_view_direction(azimuth: i64, elevation: i64) -> (r: Vec3)
    requires
        0 <= azimuth < ANGLE_FULL_TURN,
        0 <= elevation < ANGLE_FULL_TURN,
    ensures
        r == view_direction_spec(azimuth as int, elevation as int),
        -TRIG_SCALE <= r.x <= TRIG_SCALE,
        -TRIG_SCALE <= r.y <= TRIG_SCALE,
        -TRIG_SCALE <= r.z <= TRIG_SCALE,
{
    let se = sin_fp(elevation);
    let ce = cos_fp(elevation);
    let sa = sin_fp(azimuth);
    let ca = cos_fp(azimuth);
    let s = TRIG_SCALE;
    assert(-(s * s) <= se * ca <= s * s) by (nonlinear_arith)
        requires
            -s <= se <= s,
            -s <= ca <= s,
            s == TRIG_SCALE,
    ;
    assert(-(s * s) <= se * sa <= s * s) by (nonlinear_arith)
        requires
            -s <= se <= s,
            -s <= sa <= s,
            s == TRIG_SCALE,
    ;
    let x = (se * ca).checked_div_euclid(TRIG_SCALE).unwrap();
    let zp = (se * sa).checked_div_euclid(TRIG_SCALE).unwrap();
    proof {
        lemma_div_scale_bound(se as int * ca as int);
        lemma_div_scale_bound(se as int * sa as int);
    }
    Vec3 { x, y: -ce, z: -zp }
}

/// A product of two `TRIG_SCALE`-bounded factors, divided by the scale,
/// stays within the scale.
proof fn lemma_div_scale_bound(p: int)
    requires
        -(TRIG_SCALE * TRIG_SCALE) <= p <= TRIG_SCALE * TRIG_SCALE,
    ensures
        -TRIG_SCALE <= p / (TRIG_SCALE as int) <= TRIG_SCALE,
{
    let s = TRIG_SCALE as int;
    vstd::arithmetic::div_mod::lemma_div_is_ordered(-(s * s), p, s);
    vstd::arithmetic::div_mod::lemma_div_is_ordered(p, s * s, s);
    vstd::arithmetic::div_mod::lemma_div_multiples_vanish(s, s);
    vstd::arithmetic::div_mod::lemma_div_multiples_vanish(-s, s);
    assert(s * s == s * (s as int)) by (nonlinear_arith);
    assert(-(s * s) == s * (-s as int)) by (nonlinear_arith);
}

} // verus!
