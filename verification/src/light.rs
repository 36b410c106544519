//! The one dynamic point light: its animated position and color, and
//! the six cube-face shadow matrices kept in its GPU uniform.
//!
//! Position and color are periodic functions of the elapsed time alone
//! — not of the frame delta — so the motion cannot drift with variable
//! frame timing. The sinusoids use the crate's exact fixed-point sine.

use vstd::prelude::*;

verus! {

use crate::math::{Vec3, MILLI, sin_mdeg, spec_sin_mdeg, spec_div_trunc, div_trunc,
    lemma_div_trunc_bound, lemma_sin_mdeg_range, ANGLE_LIMIT_MDEG};
use crate::matrix::Mat4;
use crate::shadow::{shadow_face_matrices, is_face_matrix, LIGHT_POS_LIMIT, FACE_COUNT};

/// Millidegrees per radian, rounded: the animation frequencies are
/// stated in tenths of a radian per second.
pub const RAD_MDEG: i64 = 57296;

/// Largest elapsed time, in milliseconds, the animation accepts.
pub const TIME_LIMIT_MS: u64 = 10000000000;

/// The phase, in millidegrees, of an oscillator running at
/// `tenth_rad_per_s` tenths of a radian per second.
pub open spec fn spec_light_phase(time_ms: int, tenth_rad_per_s: int) -> int {
    spec_div_trunc(time_ms * RAD_MDEG * tenth_rad_per_s, 10000)
}

/// `p` is the light position at `time_ms`: a Lissajous-like figure
/// with amplitudes 500, 200 and 100 world units, the y component
/// offset 250 units up.
pub open spec fn is_animated_position(p: Vec3, time_ms: int) -> bool {
    &&& p.x == spec_div_trunc(500 * spec_sin_mdeg(spec_light_phase(time_ms, 5)), MILLI as int)
    &&& p.y == 250 + spec_div_trunc(200 * spec_sin_mdeg(spec_light_phase(time_ms, 3)), MILLI as int)
    &&& p.z == spec_div_trunc(100 * spec_sin_mdeg(spec_light_phase(time_ms, 8)), MILLI as int)
}

/// The color channels oscillate as rectified sines in the milli scale.
pub open spec fn is_animated_color(r: int, g: int, b: int, time_ms: int) -> bool {
    &&& r == abs_int(spec_sin_mdeg(spec_light_phase(time_ms, 10)))
    &&& g == abs_int(spec_sin_mdeg(spec_light_phase(time_ms, 6)))
    &&& b == abs_int(spec_sin_mdeg(spec_light_phase(time_ms, 4)))
}

/// The absolute value.
pub open spec fn abs_int(x: int) -> int {
    if x < 0 {
        -x
    } else {
        x
    }
}

/// Evaluates one oscillator phase.
fn light_phase(time_ms: u64, tenth_rad_per_s: i64) -> (ph: i64)
    requires
        time_ms <= TIME_LIMIT_MS,
        0 < tenth_rad_per_s <= 10,
    ensures
        ph == spec_light_phase(time_ms as int, tenth_rad_per_s as int),
        -ANGLE_LIMIT_MDEG <= ph <= ANGLE_LIMIT_MDEG,
{
    proof {
        crate::math::lemma_abs_mul_le(
            (time_ms * RAD_MDEG) as int, tenth_rad_per_s as int, 572960000000000, 10);
        lemma_div_trunc_bound((time_ms * RAD_MDEG * tenth_rad_per_s) as int, 10000, 1000000000000);
    }
    div_trunc((time_ms as i64) * RAD_MDEG * tenth_rad_per_s, 10000)
}

/// One oscillating channel: the sine of the phase, scaled by
/// `amplitude` whole units.
fn oscillate(time_ms: u64, tenth_rad_per_s: i64, amplitude: i64) -> (v: i64)
    requires
        time_ms <= TIME_LIMIT_MS,
        0 < tenth_rad_per_s <= 10,
        0 < amplitude <= 1000,
    ensures
        v == spec_div_trunc(amplitude * spec_sin_mdeg(spec_light_phase(time_ms as int, tenth_rad_per_s as int)), MILLI as int),
        -amplitude <= v <= amplitude,
{
    let ph: i64 = light_phase(time_ms, tenth_rad_per_s);
    let s: i64 = sin_mdeg(ph);
    proof {
        assert(-(amplitude * 1000) <= amplitude * s <= amplitude * 1000) by (nonlinear_arith)
            requires
                0 < amplitude,
                -1000 <= s <= 1000;
        assert(-(amplitude * (MILLI as int)) <= amplitude * s <= amplitude * (MILLI as int));
        lemma_div_trunc_bound(amplitude * s, MILLI as int, amplitude as int);
    }
    div_trunc(amplitude * s, MILLI)
}

/// The light's GPU uniform: world position, color with the intensity
/// packed in the fourth channel, and the six face view-projection
/// matrices in cube layer order.
pub struct LightUniform {
    pub position: Vec3,
    pub color_r_milli: i64,
    pub color_g_milli: i64,
    pub color_b_milli: i64,
    pub intensity_milli: i64,
    pub matrices: Vec<Mat4>,
}

impl LightUniform {
    /// Uniform invariant: the position is in range and the six
    /// matrices are exactly the face matrices of that position.
    pub open spec fn wf(self) -> bool {
        &&& self.position.bounded(LIGHT_POS_LIMIT as int)
        &&& self.matrices.len() == FACE_COUNT
        &&& forall|i: int| 0 <= i < FACE_COUNT ==> is_face_matrix(#[trigger] self.matrices[i], self.position, i)
    }

    /// A light at the given position with the given color, its shadow
    /// matrices already computed.
    pub fn new(position: Vec3, color_r_milli: i64, color_g_milli: i64, color_b_milli: i64, intensity_milli: i64) -> (u: LightUniform)
        requires
            position.bounded(LIGHT_POS_LIMIT as int),
        ensures
            u.wf(),
            u.position == position,
            u.color_r_milli == color_r_milli,
            u.color_g_milli == color_g_milli,
            u.color_b_milli == color_b_milli,
            u.intensity_milli == intensity_milli,
    {
        let matrices: Vec<Mat4> = shadow_face_matrices(position);
        LightUniform {
            position,
            color_r_milli,
            color_g_milli,
            color_b_milli,
            intensity_milli,
            matrices,
        }
    }

    /// Recomputes the six face matrices for the current position; the
    /// rest of the uniform is unchanged.
    pub fn update_matrices(&mut self)
        requires
            old(self).position.bounded(LIGHT_POS_LIMIT as int),
        ensures
            final(self).wf(),
            final(self).position == old(self).position,
            final(self).color_r_milli == old(self).color_r_milli,
            final(self).color_g_milli == old(self).color_g_milli,
            final(self).color_b_milli == old(self).color_b_milli,
            final(self).intensity_milli == old(self).intensity_milli,
    {
        self.matrices = shadow_face_matrices(self.position);
    }

    /// Advances the light to the given elapsed time: position and
    /// color follow their periodic functions, the matrices follow the
    /// position, and the intensity is kept.
    pub fn animate(&mut self, time_ms: u64)
        requires
            time_ms <= TIME_LIMIT_MS,
        ensures
            final(self).wf(),
            is_animated_position(final(self).position, time_ms as int),
            is_animated_color(
                final(self).color_r_milli as int,
                final(self).color_g_milli as int,
                final(self).color_b_milli as int,
                time_ms as int,
            ),
            final(self).intensity_milli == old(self).intensity_milli,
    {
        let x: i64 = oscillate(time_ms, 5, 500);
        let y: i64 = 250 + oscillate(time_ms, 3, 200);
        let z: i64 = oscillate(time_ms, 8, 100);
        self.position = Vec3 { x, y, z };
        self.update_matrices();
        let r: i64 = sin_mdeg(light_phase(time_ms, 10));
        let g: i64 = sin_mdeg(light_phase(time_ms, 6));
        let b: i64 = sin_mdeg(light_phase(time_ms, 4));
        self.color_r_milli = if r < 0 { -r } else { r };
        self.color_g_milli = if g < 0 { -g } else { g };
        self.color_b_milli = if b < 0 { -b } else { b };
    }
}

} // verus!
