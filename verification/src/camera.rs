//! The orbital camera: spherical coordinates around the origin, clamped
//! into a safe band, and the view/projection matrices derived from them.
use vstd::prelude::*;

use crate::fx::fx_abs;
use crate::fx::fx_clamp;
use crate::fx::fx_clamp_spec;
use crate::fx::fx_div;
use crate::fx::fx_div_spec;
use crate::fx::fx_mul;
use crate::fx::fx_mul_spec;
use crate::fx::lemma_fx_mul_bound;
use crate::fx::FX_LIMIT;
use crate::fx::FX_ONE;
use crate::mat::Mat4;
use crate::mat::Vec3;
use crate::trig::cos_fx;
use crate::trig::cos_spec;
use crate::trig::fx_mod_tau;
use crate::trig::sin_fx;
use crate::trig::sin_spec;
use crate::trig::FX_PI;
use crate::trig::FX_TAU;
use crate::ConfigurationError;

verus! {

/// Magnitude cap on the camera radius; keeps every view-matrix entry a
/// safe fixed-point operand.
pub const RADIUS_LIMIT: i64 = 0x400_0000;

/// Magnitude cap on one frame's worth of input deltas.
pub const DELTA_LIMIT: i64 = 0x1000_0000;

/// Magnitude cap on stored camera angles; far wider than one turn, far
/// narrower than what the trigonometry accepts, so an input step can
/// never overflow.
pub const CAM_ANGLE_LIMIT: i64 = 0x100_0000_0000;

/// Azimuth magnitude up to which an input step is always in range: one
/// delta's worth of headroom below the angle cap. A caller that lets the
/// azimuth accumulate this far can bring it back with
/// `Camera::canonicalize_azimuth`, which changes no derived output.
pub const PHI_INPUT_LIMIT: i64 = 0x100_0000_0000 - 0x1000_0000;

/// Fixed-point cotangent of half the 45-degree vertical field of view.
pub const PROJ_FOCAL: i64 = 158218;

/// Fixed-point `(far + near) / (near - far)` for near 0.1, far 100.
pub const PROJ_DEPTH_SCALE: i64 = -65667;

/// Fixed-point `2 * far * near / (near - far)` for near 0.1, far 100.
pub const PROJ_DEPTH_OFFSET: i64 = -13120;

#[derive(Clone, Copy, Debug, PartialEq, Eq, Structural)]
pub struct Camera {
    /// Distance from the origin, fixed point.
    pub radius: i64,
    /// Polar angle from the `+y` axis, fixed-point radians.
    pub theta: i64,
    /// Azimuth in the `xz` plane, fixed-point radians.
    pub phi: i64,
}

/// The clamp band the camera is projected into after every input step.
#[derive(Clone, Copy, Debug, PartialEq, Eq, Structural)]
pub struct CameraLimits {
    pub min_radius: i64,
    pub max_radius: i64,
    /// Width of the polar band kept away from each pole.
    pub epsilon: i64,
}

/// One frame's worth of signed camera input.
#[derive(Clone, Copy, Debug, PartialEq, Eq, Structural)]
pub struct CameraDelta {
    pub d_theta: i64,
    pub d_phi: i64,
    pub d_radius: i64,
}

pub open spec fn limits_valid(l: CameraLimits) -> bool {
    &&& 0 < l.min_radius < l.max_radius
    &&& l.max_radius <= RADIUS_LIMIT
    &&& 0 < l.epsilon
    &&& 2 * l.epsilon < FX_PI
}

pub open spec fn camera_wf(c: Camera) -> bool {
    &&& fx_abs(c.radius as int) <= RADIUS_LIMIT as int
    &&& fx_abs(c.theta as int) <= CAM_ANGLE_LIMIT as int
    &&& fx_abs(c.phi as int) <= CAM_ANGLE_LIMIT as int
}

pub open spec fn delta_wf(d: CameraDelta) -> bool {
    &&& fx_abs(d.d_theta as int) <= DELTA_LIMIT as int
    &&& fx_abs(d.d_phi as int) <= DELTA_LIMIT as int
    &&& fx_abs(d.d_radius as int) <= DELTA_LIMIT as int
}

/// The camera state after one input step: the polar angle and the radius
/// move by their deltas and are clamped back into the valid band; the
/// azimuth accumulates unclamped, as the input collaborator hands it.
/// The machine bound on the stored azimuth is a precondition of the
/// step, not a clamp.
pub open spec fn apply_input_spec(c: Camera, d: CameraDelta, l: CameraLimits) -> Camera {
    Camera {
        radius: fx_clamp_spec(
            c.radius as int + d.d_radius as int,
            l.min_radius as int,
            l.max_radius as int,
        ) as i64,
        theta: fx_clamp_spec(
            c.theta as int + d.d_theta as int,
            l.epsilon as int,
            (FX_PI - l.epsilon) as int,
        ) as i64,
        phi: (c.phi as int + d.d_phi as int) as i64,
    }
}

impl CameraLimits {
    /// Validate a clamp band; rejected bounds never reach the camera.
    pub fn new(min_radius: i64, max_radius: i64, epsilon: i64) -> (r: Result<
        CameraLimits,
        ConfigurationError,
    >)
        ensures
            (0 < min_radius < max_radius && max_radius <= RADIUS_LIMIT && 0 < epsilon && 2
                * epsilon < FX_PI) ==> r == Ok::<CameraLimits, ConfigurationError>(
                CameraLimits { min_radius, max_radius, epsilon },
            ),
            !(0 < min_radius < max_radius && max_radius <= RADIUS_LIMIT) ==> r == Err::<
                CameraLimits,
                ConfigurationError,
            >(ConfigurationError::CameraBounds),
            (0 < min_radius < max_radius && max_radius <= RADIUS_LIMIT && !(0 < epsilon && 2
                * epsilon < FX_PI)) ==> r == Err::<CameraLimits, ConfigurationError>(
                ConfigurationError::CameraEpsilon,
            ),
            r is Ok ==> limits_valid(r->Ok_0),
    {
        if !(0 < min_radius && min_radius < max_radius && max_radius <= RADIUS_LIMIT) {
            Err(ConfigurationError::CameraBounds)
        } else if !(0 < epsilon && epsilon < FX_PI && 2 * epsilon < FX_PI) {
            Err(ConfigurationError::CameraEpsilon)
        } else {
            Ok(CameraLimits { min_radius, max_radius, epsilon })
        }
    }
}

impl Camera {
    /// A camera at the given spherical coordinates.
    pub fn new(radius: i64, theta: i64, phi: i64) -> (r: Camera)
        requires
            fx_abs(radius as int) <= RADIUS_LIMIT as int,
            fx_abs(theta as int) <= CAM_ANGLE_LIMIT as int,
            fx_abs(phi as int) <= CAM_ANGLE_LIMIT as int,
        ensures
            r == (Camera { radius, theta, phi }),
            camera_wf(r),
    {
        Camera { radius, theta, phi }
    }

    /// Move by one frame's input deltas, then re-clamp the polar angle
    /// and the radius; the azimuth accumulates without a clamp. The
    /// stepped azimuth staying under the angle cap is a machine-limit
    /// precondition (`PHI_INPUT_LIMIT` on the old state suffices for any
    /// one delta); `canonicalize_azimuth` brings an accumulated azimuth
    /// back without changing any derived output.
    pub fn apply_input(&mut self, d: CameraDelta, l: &CameraLimits)
        requires
            camera_wf(*old(self)),
            delta_wf(d),
            limits_valid(*l),
            fx_abs(old(self).phi as int + d.d_phi as int) <= CAM_ANGLE_LIMIT as int,
        ensures
            *final(self) == apply_input_spec(*old(self), d, *l),
            camera_wf(*final(self)),
            l.min_radius <= final(self).radius <= l.max_radius,
            l.epsilon <= final(self).theta <= FX_PI - l.epsilon,
            final(self).phi == old(self).phi + d.d_phi,
    {
        let radius = fx_clamp(self.radius + d.d_radius, l.min_radius, l.max_radius);
        let theta = fx_clamp(self.theta + d.d_theta, l.epsilon, FX_PI - l.epsilon);
        let phi = self.phi + d.d_phi;
        self.radius = radius;
        self.theta = theta;
        self.phi = phi;
    }

    /// Reduce the stored azimuth to one turn. A separate, optional
    /// operation: the renderer never needs it for correctness (the view
    /// is unchanged, see `lemma_azimuth_reduction_invisible`), but a
    /// long-running caller invokes it to keep the accumulating azimuth
    /// under the machine cap.
    pub fn canonicalize_azimuth(&mut self)
        requires
            camera_wf(*old(self)),
        ensures
            final(self).phi as int == old(self).phi as int % (FX_TAU as int),
            0 <= final(self).phi < FX_TAU,
            final(self).theta == old(self).theta,
            final(self).radius == old(self).radius,
            camera_wf(*final(self)),
            view_spec(*final(self)) == view_spec(*old(self)),
            eye_spec(*final(self)) == eye_spec(*old(self)),
    {
        proof {
            lemma_azimuth_reduction_invisible(*self);
        }
        self.phi = fx_mod_tau(self.phi);
    }

    /// The Cartesian eye position of the current spherical coordinates.
    pub fn eye_position(&self) -> (r: Vec3)
        requires
            camera_wf(*self),
        ensures
            r == eye_spec(*self),
            crate::mat::vec3_bounded(r, RADIUS_LIMIT as int),
    {
        proof {
            lemma_eye_bounded(*self);
        }
        let st = sin_fx(self.theta);
        let ct = cos_fx(self.theta);
        let sp = sin_fx(self.phi);
        let cp = cos_fx(self.phi);
        let rs = fx_mul(self.radius, st);
        Vec3 { x: fx_mul(rs, cp), y: fx_mul(self.radius, ct), z: fx_mul(rs, sp) }
    }
}

impl Camera {
    /// The world-to-view transform: look from the eye position at the
    /// origin, up along `+y`.
    pub fn view_matrix(&self) -> (r: Mat4)
        requires
            camera_wf(*self),
        ensures
            r == view_spec(*self),
            crate::mat::mat_bounded(r, VIEW_LIMIT as int),
    {
        let st = sin_fx(self.theta);
        let ct = cos_fx(self.theta);
        let sp = sin_fx(self.phi);
        let cp = cos_fx(self.phi);
        let e = self.eye_position();
        proof {
            let one = FX_ONE as int;
            let lim = RADIUS_LIMIT as int;
            lemma_fx_mul_bound(ct as int, cp as int, one, one);
            lemma_fx_mul_bound(ct as int, sp as int, one, one);
            lemma_fx_mul_bound(st as int, cp as int, one, one);
            lemma_fx_mul_bound(st as int, sp as int, one, one);
            lemma_fx_mul_bound(sp as int, e.x as int, one, lim);
            lemma_fx_mul_bound(cp as int, e.z as int, one, lim);
            lemma_fx_mul_bound(fx_mul_spec(ct as int, cp as int), e.x as int, one, lim);
            lemma_fx_mul_bound(st as int, e.y as int, one, lim);
            lemma_fx_mul_bound(fx_mul_spec(ct as int, sp as int), e.z as int, one, lim);
            lemma_fx_mul_bound(fx_mul_spec(st as int, cp as int), e.x as int, one, lim);
            lemma_fx_mul_bound(ct as int, e.y as int, one, lim);
            lemma_fx_mul_bound(fx_mul_spec(st as int, sp as int), e.z as int, one, lim);
        }
        let ctcp = fx_mul(ct, cp);
        let ctsp = fx_mul(ct, sp);
        let stcp = fx_mul(st, cp);
        let stsp = fx_mul(st, sp);
        let t0: i64 = -(fx_mul(sp, e.x) - fx_mul(cp, e.z));
        let t1: i64 = -(-fx_mul(ctcp, e.x) + fx_mul(st, e.y) - fx_mul(ctsp, e.z));
        let t2: i64 = -(fx_mul(stcp, e.x) + fx_mul(ct, e.y) + fx_mul(stsp, e.z));
        Mat4 {
            m00: sp,
            m01: 0,
            m02: -cp,
            m03: t0,
            m10: -ctcp,
            m11: st,
            m12: -ctsp,
            m13: t1,
            m20: stcp,
            m21: ct,
            m22: stsp,
            m23: t2,
            m30: 0,
            m31: 0,
            m32: 0,
            m33: FX_ONE,
        }
    }

    /// The perspective transform of the fixed 45-degree frustum, for the
    /// caller-supplied aspect ratio; fails exactly on a non-positive
    /// aspect.
    pub fn proj_matrix(&self, aspect: i64) -> (r: Result<Mat4, ConfigurationError>)
        requires
            -FX_LIMIT <= aspect <= FX_LIMIT,
        ensures
            aspect <= 0 ==> r == Err::<Mat4, ConfigurationError>(ConfigurationError::Aspect),
            aspect > 0 ==> r == Ok::<Mat4, ConfigurationError>(proj_spec(aspect as int)),
    {
        if aspect <= 0 {
            return Err(ConfigurationError::Aspect);
        }
        Ok(
            Mat4 {
                m00: fx_div(PROJ_FOCAL, aspect),
                m01: 0,
                m02: 0,
                m03: 0,
                m10: 0,
                m11: PROJ_FOCAL,
                m12: 0,
                m13: 0,
                m20: 0,
                m21: 0,
                m22: PROJ_DEPTH_SCALE,
                m23: PROJ_DEPTH_OFFSET,
                m30: 0,
                m31: 0,
                m32: -FX_ONE,
                m33: 0,
            },
        )
    }
}

/// Magnitude cap on view-matrix entries: a three-term dot product of
/// unit-scale factors against eye coordinates.
pub const VIEW_LIMIT: i64 = 0x1000_0000;

/// The look-at matrix of the camera's spherical coordinates: rows are the
/// right, up, and backward unit directions of the orbital frame, and the
/// last column moves the eye to the origin.
pub open spec fn view_spec(c: Camera) -> Mat4 {
    let st = sin_spec(c.theta as int);
    let ct = cos_spec(c.theta as int);
    let sp = sin_spec(c.phi as int);
    let cp = cos_spec(c.phi as int);
    let e = eye_spec(c);
    let ctcp = fx_mul_spec(ct, cp);
    let ctsp = fx_mul_spec(ct, sp);
    let stcp = fx_mul_spec(st, cp);
    let stsp = fx_mul_spec(st, sp);
    Mat4 {
        m00: sp as i64,
        m01: 0,
        m02: (-cp) as i64,
        m03: (-(fx_mul_spec(sp, e.x as int) - fx_mul_spec(cp, e.z as int))) as i64,
        m10: (-ctcp) as i64,
        m11: st as i64,
        m12: (-ctsp) as i64,
        m13: (-(-fx_mul_spec(ctcp, e.x as int) + fx_mul_spec(st, e.y as int) - fx_mul_spec(
            ctsp,
            e.z as int,
        ))) as i64,
        m20: stcp as i64,
        m21: ct as i64,
        m22: stsp as i64,
        m23: (-(fx_mul_spec(stcp, e.x as int) + fx_mul_spec(ct, e.y as int) + fx_mul_spec(
            stsp,
            e.z as int,
        ))) as i64,
        m30: 0,
        m31: 0,
        m32: 0,
        m33: FX_ONE,
    }
}

/// The perspective matrix of the fixed frustum at a given aspect ratio.
pub open spec fn proj_spec(aspect: int) -> Mat4 {
    Mat4 {
        m00: fx_div_spec(PROJ_FOCAL as int, aspect) as i64,
        m01: 0,
        m02: 0,
        m03: 0,
        m10: 0,
        m11: PROJ_FOCAL,
        m12: 0,
        m13: 0,
        m20: 0,
        m21: 0,
        m22: PROJ_DEPTH_SCALE,
        m23: PROJ_DEPTH_OFFSET,
        m30: 0,
        m31: 0,
        m32: (-FX_ONE) as i64,
        m33: 0,
    }
}

/// On the equator at azimuth zero the eye sits exactly on the `+x` axis,
/// at distance `radius`.
pub proof fn lemma_eye_on_x_axis(c: Camera)
    requires
        camera_wf(c),
        c.theta == crate::trig::FX_HALF_PI,
        c.phi == 0,
    ensures
        eye_spec(c) == (Vec3 { x: c.radius, y: 0i64, z: 0i64 }),
{
    crate::trig::lemma_trig_exact();
    crate::fx::lemma_fx_mul_one(c.radius as int);
    crate::fx::lemma_fx_mul_zero(c.radius as int);
}

/// Whatever deltas arrive, the clamped coordinates after an input step
/// are inside the valid band: the polar angle in
/// `[epsilon, pi - epsilon]`, the radius in `[min_radius, max_radius]`.
pub proof fn lemma_apply_input_in_range(c: Camera, d: CameraDelta, l: CameraLimits)
    requires
        limits_valid(l),
    ensures
        l.min_radius <= apply_input_spec(c, d, l).radius <= l.max_radius,
        l.epsilon <= apply_input_spec(c, d, l).theta <= FX_PI - l.epsilon,
{
}

/// Reducing the azimuth modulo one turn is invisible through the
/// camera's outputs: a camera whose azimuth is reduced has exactly the
/// same eye position and view matrix as the camera itself.
pub proof fn lemma_azimuth_reduction_invisible(c: Camera)
    ensures
        eye_spec(Camera { phi: (c.phi as int % (FX_TAU as int)) as i64, ..c }) == eye_spec(c),
        view_spec(Camera { phi: (c.phi as int % (FX_TAU as int)) as i64, ..c }) == view_spec(c),
{
    let reduced = Camera { phi: (c.phi as int % (FX_TAU as int)) as i64, ..c };
    vstd::arithmetic::div_mod::lemma_mod_division_less_than_divisor(c.phi as int, FX_TAU as int);
    crate::trig::lemma_sin_mod(c.phi as int);
    crate::trig::lemma_cos_mod(c.phi as int);
    assert(sin_spec(reduced.phi as int) == sin_spec(c.phi as int));
    assert(cos_spec(reduced.phi as int) == cos_spec(c.phi as int));
}

/// An input step with zero deltas on a state already inside the valid
/// band changes nothing: clamping is an idempotent pure projection onto
/// the range, and the azimuth is untouched.
pub proof fn lemma_apply_input_no_op(c: Camera, l: CameraLimits)
    requires
        limits_valid(l),
        l.epsilon <= c.theta <= FX_PI - l.epsilon,
        l.min_radius <= c.radius <= l.max_radius,
    ensures
        apply_input_spec(c, CameraDelta { d_theta: 0, d_phi: 0, d_radius: 0 }, l) == c,
{
}

/// Clamping is an idempotent projection: a second input step with zero
/// deltas leaves the state exactly where the first left it.
pub proof fn lemma_apply_input_idempotent(c: Camera, d: CameraDelta, l: CameraLimits)
    requires
        limits_valid(l),
    ensures
        apply_input_spec(
            apply_input_spec(c, d, l),
            CameraDelta { d_theta: 0, d_phi: 0, d_radius: 0 },
            l,
        ) == apply_input_spec(c, d, l),
{
    lemma_apply_input_in_range(c, d, l);
    lemma_apply_input_no_op(apply_input_spec(c, d, l), l);
}

/// Spherical-to-Cartesian conversion of the camera's coordinates.
pub open spec fn eye_spec(c: Camera) -> Vec3 {
    let st = sin_spec(c.theta as int);
    let ct = cos_spec(c.theta as int);
    let sp = sin_spec(c.phi as int);
    let cp = cos_spec(c.phi as int);
    let rs = fx_mul_spec(c.radius as int, st);
    Vec3 {
        x: fx_mul_spec(rs, cp) as i64,
        y: fx_mul_spec(c.radius as int, ct) as i64,
        z: fx_mul_spec(rs, sp) as i64,
    }
}

/// The eye never leaves the radius ball.
pub proof fn lemma_eye_bounded(c: Camera)
    requires
        camera_wf(c),
    ensures
        crate::mat::vec3_bounded(eye_spec(c), RADIUS_LIMIT as int),
        fx_abs(fx_mul_spec(c.radius as int, sin_spec(c.theta as int))) <= RADIUS_LIMIT as int,
{
    let one = FX_ONE as int;
    let lim = RADIUS_LIMIT as int;
    crate::trig::lemma_sin_bounds(c.theta as int);
    crate::trig::lemma_sin_bounds(c.theta as int + crate::trig::FX_HALF_PI as int);
    crate::trig::lemma_sin_bounds(c.phi as int);
    crate::trig::lemma_sin_bounds(c.phi as int + crate::trig::FX_HALF_PI as int);
    let st = sin_spec(c.theta as int);
    let ct = cos_spec(c.theta as int);
    let sp = sin_spec(c.phi as int);
    let cp = cos_spec(c.phi as int);
    let rs = fx_mul_spec(c.radius as int, st);
    lemma_fx_mul_bound(c.radius as int, st, lim, one);
    assert(lim * one / one == lim) by (nonlinear_arith)
        requires
            lim == RADIUS_LIMIT as int,
            one == FX_ONE as int,
    ;
    lemma_fx_mul_bound(rs, cp, lim, one);
    lemma_fx_mul_bound(c.radius as int, ct, lim, one);
    lemma_fx_mul_bound(rs, sp, lim, one);
}

} // verus!
