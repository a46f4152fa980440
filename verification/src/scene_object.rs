//! Scene entities: a geometry handle, a base transform, two colors, and
//! optional rotation, color-pulse, and texture configuration.
//!
//! An entity holds no per-frame state: every frame's transform and colors
//! are recomputed from the base fields and the global time, so seeking to
//! an arbitrary time is exact by construction.
use vstd::prelude::*;

use crate::fx::fx_abs;
use crate::fx::fx_mul;
use crate::fx::fx_mul_spec;
use crate::fx::lemma_fx_mul_bound;
use crate::fx::FX_LIMIT;
use crate::fx::FX_ONE;
use crate::mat::axis_angle_spec;
use crate::mat::mat_bounded;
use crate::mat::mat_mul_spec;
use crate::mat::vec3_bounded;
use crate::mat::normalize_spec;
use crate::mat::vec3_lerp;
use crate::mat::vec3_lerp_spec;
use crate::mat::Mat4;
use crate::mat::Vec3;
use crate::mat::AXIS_LIMIT;
use crate::mat::COLOR_LIMIT;
use crate::mat::MAT_LIMIT;
use crate::mat::ROT_LIMIT;
use crate::mesh::Mesh;
use crate::textures::Texture;
use crate::trig::sin_fx;
use crate::trig::sin_spec;
use crate::trig::FX_PI;
use crate::trig::FX_TAU;

verus! {

/// Magnitude cap on rotation and color-pulse speeds (16 turns of radians
/// per second).
pub const SPEED_LIMIT: i64 = 0x10_0000;

/// Largest global time the animation accepts, fixed point.
pub const TIME_LIMIT: i64 = 0x8000_0000;

/// Magnitude cap on base-model entries.
pub const MODEL_LIMIT: i64 = 0x4000_0000;

/// Magnitude cap on animated-model entries: a product of a bounded base
/// with a rotation.
pub const MODEL_OUT_LIMIT: i64 = 0x4_0000_0000;

/// One drawable entity of the scene.
#[derive(Clone, Copy, Debug)]
pub struct SceneObject {
    pub mesh: Mesh,
    pub base_model: Mat4,
    pub base_color1: Vec3,
    pub base_color2: Vec3,
    pub animate_rotation: bool,
    pub animate_color: bool,
    /// Rotation axis as configured; brought to unit length defensively
    /// each time a frame is computed (a zero axis acts as `+y`).
    pub rotation_axis: Vec3,
    pub rotation_speed: i64,
    pub color_speed: i64,
    pub is_ground: bool,
    pub texture: Option<Texture>,
    pub use_texture: bool,
    pub alpha_cutout: bool,
}

/// The per-frame values an entity contributes to its draw call.
#[derive(Clone, Copy, Debug, PartialEq, Eq, Structural)]
pub struct FrameState {
    pub model: Mat4,
    pub color1: Vec3,
    pub color2: Vec3,
}

/// Everything one draw call binds: matrices, colors, flags, and handles.
#[derive(Clone, Copy, Debug)]
pub struct DrawCall {
    pub model: Mat4,
    pub view: Mat4,
    pub proj: Mat4,
    pub color1: Vec3,
    pub color2: Vec3,
    pub is_ground: bool,
    pub use_texture: bool,
    pub alpha_cutout: bool,
    pub texture: Option<Texture>,
    pub mesh: Mesh,
}

pub open spec fn object_wf(o: SceneObject) -> bool {
    &&& mat_bounded(o.base_model, MODEL_LIMIT as int)
    &&& vec3_bounded(o.base_color1, COLOR_LIMIT as int)
    &&& vec3_bounded(o.base_color2, COLOR_LIMIT as int)
    &&& vec3_bounded(o.rotation_axis, AXIS_LIMIT as int)
    &&& fx_abs(o.rotation_speed as int) <= SPEED_LIMIT as int
    &&& fx_abs(o.color_speed as int) <= SPEED_LIMIT as int
}

/// The rotation angle an entity has reached at global time `t`.
pub open spec fn rotation_angle_spec(o: SceneObject, t: int) -> int {
    fx_mul_spec(o.rotation_speed as int, t)
}

/// The model transform at time `t`: the base transform, with the
/// animation rotation about the defensively normalized axis appended
/// (applied in the entity's local frame) when rotation is enabled.
pub open spec fn model_spec(o: SceneObject, t: int) -> Mat4 {
    if o.animate_rotation {
        mat_mul_spec(
            o.base_model,
            axis_angle_spec(normalize_spec(o.rotation_axis), rotation_angle_spec(o, t)),
        )
    } else {
        o.base_model
    }
}

/// The color-pulse blend factor at time `t`, in `[0, FX_ONE]`.
pub open spec fn blend_spec(o: SceneObject, t: int) -> int {
    ((FX_ONE as int) + sin_spec(fx_mul_spec(o.color_speed as int, t))) / 2
}

/// The first output color at time `t`.
pub open spec fn color1_spec(o: SceneObject, t: int) -> Vec3 {
    if o.animate_color {
        vec3_lerp_spec(o.base_color1, o.base_color2, blend_spec(o, t))
    } else {
        o.base_color1
    }
}

/// The second output color at time `t`; the endpoints swap roles so the
/// two outputs sweep the gradient in opposite phase.
pub open spec fn color2_spec(o: SceneObject, t: int) -> Vec3 {
    if o.animate_color {
        vec3_lerp_spec(o.base_color2, o.base_color1, blend_spec(o, t))
    } else {
        o.base_color2
    }
}

impl SceneObject {
    /// A static entity: no animation, no texture, default `+y` axis.
    pub fn new(mesh: Mesh, base_model: Mat4, base_color1: Vec3, base_color2: Vec3) -> (r:
        SceneObject)
        requires
            mat_bounded(base_model, MODEL_LIMIT as int),
            vec3_bounded(base_color1, COLOR_LIMIT as int),
            vec3_bounded(base_color2, COLOR_LIMIT as int),
        ensures
            r.mesh == mesh,
            r.base_model == base_model,
            r.base_color1 == base_color1,
            r.base_color2 == base_color2,
            !r.animate_rotation,
            !r.animate_color,
            r.rotation_axis == crate::mat::unit_y_spec(),
            r.rotation_speed == 0,
            r.color_speed == 0,
            !r.is_ground,
            r.texture is None,
            !r.use_texture,
            !r.alpha_cutout,
            object_wf(r),
    {
        SceneObject {
            mesh,
            base_model,
            base_color1,
            base_color2,
            animate_rotation: false,
            animate_color: false,
            rotation_axis: Vec3 { x: 0, y: FX_ONE, z: 0 },
            rotation_speed: 0,
            color_speed: 0,
            is_ground: false,
            texture: None,
            use_texture: false,
            alpha_cutout: false,
        }
    }

    /// Enable the rotation animation about `axis` at `speed` radians per
    /// second. The axis is stored as given; each frame computation
    /// normalizes it defensively (a zero axis acts as `+y`).
    pub fn with_rotation(self, axis: Vec3, speed: i64) -> (r: SceneObject)
        requires
            object_wf(self),
            vec3_bounded(axis, AXIS_LIMIT as int),
            fx_abs(speed as int) <= SPEED_LIMIT as int,
        ensures
            r == (SceneObject {
                animate_rotation: true,
                rotation_axis: axis,
                rotation_speed: speed,
                ..self
            }),
            object_wf(r),
    {
        SceneObject { animate_rotation: true, rotation_axis: axis, rotation_speed: speed, ..self }
    }

    /// Enable the color-pulse animation at `speed` radians per second.
    pub fn with_color_animation(self, speed: i64) -> (r: SceneObject)
        requires
            object_wf(self),
            fx_abs(speed as int) <= SPEED_LIMIT as int,
        ensures
            r == (SceneObject { animate_color: true, color_speed: speed, ..self }),
            object_wf(r),
    {
        SceneObject { animate_color: true, color_speed: speed, ..self }
    }

    /// Mark the entity as ground geometry; the flag passes through to the
    /// draw call unchanged.
    pub fn with_ground(self, is_ground: bool) -> (r: SceneObject)
        requires
            object_wf(self),
        ensures
            r == (SceneObject { is_ground, ..self }),
            object_wf(r),
    {
        SceneObject { is_ground, ..self }
    }

    /// Bind a texture, with or without alpha cutout.
    pub fn with_texture(self, texture: Texture, alpha_cutout: bool) -> (r: SceneObject)
        requires
            object_wf(self),
        ensures
            r == (SceneObject {
                texture: Some(texture),
                use_texture: true,
                alpha_cutout,
                ..self
            }),
            object_wf(r),
    {
        SceneObject { texture: Some(texture), use_texture: true, alpha_cutout, ..self }
    }

    /// The entity's transform and colors at global time `time`.
    pub fn compute_frame(&self, time: i64) -> (r: FrameState)
        requires
            object_wf(*self),
            -TIME_LIMIT <= time <= TIME_LIMIT,
        ensures
            r.model == model_spec(*self, time as int),
            r.color1 == color1_spec(*self, time as int),
            r.color2 == color2_spec(*self, time as int),
            mat_bounded(r.model, MODEL_OUT_LIMIT as int),
            vec3_bounded(r.color1, COLOR_LIMIT as int),
            vec3_bounded(r.color2, COLOR_LIMIT as int),
    {
        let model: Mat4 = if self.animate_rotation {
            proof {
                lemma_fx_mul_bound(
                    self.rotation_speed as int,
                    time as int,
                    SPEED_LIMIT as int,
                    TIME_LIMIT as int,
                );
            }
            let angle = fx_mul(self.rotation_speed, time);
            let axis = crate::mat::normalize_axis(self.rotation_axis);
            let rot = Mat4::from_axis_angle(axis, angle);
            proof {
                crate::mat::lemma_mat_mul_bound(
                    self.base_model,
                    rot,
                    MODEL_LIMIT as int,
                    ROT_LIMIT as int,
                );
            }
            self.base_model.mul(&rot)
        } else {
            self.base_model
        };
        if self.animate_color {
            proof {
                lemma_fx_mul_bound(
                    self.color_speed as int,
                    time as int,
                    SPEED_LIMIT as int,
                    TIME_LIMIT as int,
                );
            }
            let wave = sin_fx(fx_mul(self.color_speed, time));
            let blend = (FX_ONE + wave) / 2;
            let color1 = vec3_lerp(self.base_color1, self.base_color2, blend);
            let color2 = vec3_lerp(self.base_color2, self.base_color1, blend);
            FrameState { model, color1, color2 }
        } else {
            FrameState { model, color1: self.base_color1, color2: self.base_color2 }
        }
    }

    /// The full draw call at global time `time`, with the given view and
    /// projection. Texture flags follow the texture binding itself: with
    /// no texture both are forced off, whatever the stored flag fields
    /// say.
    pub fn draw(&self, time: i64, view: &Mat4, proj: &Mat4) -> (r: DrawCall)
        requires
            object_wf(*self),
            -TIME_LIMIT <= time <= TIME_LIMIT,
        ensures
            r.model == model_spec(*self, time as int),
            r.color1 == color1_spec(*self, time as int),
            r.color2 == color2_spec(*self, time as int),
            r.view == *view,
            r.proj == *proj,
            r.is_ground == self.is_ground,
            r.use_texture == (self.texture is Some),
            r.alpha_cutout == (self.texture is Some && self.alpha_cutout),
            r.texture == self.texture,
            r.mesh == self.mesh,
            r == draw_call_spec(*self, time as int, *view, *proj),
            mat_bounded(r.model, MODEL_OUT_LIMIT as int),
    {
        let f = self.compute_frame(time);
        let use_texture = self.texture.is_some();
        let alpha_cutout = use_texture && self.alpha_cutout;
        DrawCall {
            model: f.model,
            view: *view,
            proj: *proj,
            color1: f.color1,
            color2: f.color2,
            is_ground: self.is_ground,
            use_texture,
            alpha_cutout,
            texture: self.texture,
            mesh: self.mesh,
        }
    }
}

/// The full draw call an entity contributes at time `t` under the given
/// view and projection.
pub open spec fn draw_call_spec(o: SceneObject, t: int, view: Mat4, proj: Mat4) -> DrawCall {
    DrawCall {
        model: model_spec(o, t),
        view,
        proj,
        color1: color1_spec(o, t),
        color2: color2_spec(o, t),
        is_ground: o.is_ground,
        use_texture: o.texture is Some,
        alpha_cutout: o.texture is Some && o.alpha_cutout,
        texture: o.texture,
        mesh: o.mesh,
    }
}

/// Whether `v` lies between `a` and `b`, whichever order they are in.
pub open spec fn in_hull(a: int, b: int, v: int) -> bool {
    (a <= v <= b) || (b <= v <= a)
}

/// The color animation never overshoots: at every time, each channel of
/// both output colors lies between the corresponding channels of the two
/// base colors.
pub proof fn lemma_color_in_hull(o: SceneObject, t: int)
    requires
        object_wf(o),
    ensures
        in_hull(o.base_color1.x as int, o.base_color2.x as int, color1_spec(o, t).x as int),
        in_hull(o.base_color1.y as int, o.base_color2.y as int, color1_spec(o, t).y as int),
        in_hull(o.base_color1.z as int, o.base_color2.z as int, color1_spec(o, t).z as int),
        in_hull(o.base_color1.x as int, o.base_color2.x as int, color2_spec(o, t).x as int),
        in_hull(o.base_color1.y as int, o.base_color2.y as int, color2_spec(o, t).y as int),
        in_hull(o.base_color1.z as int, o.base_color2.z as int, color2_spec(o, t).z as int),
{
    crate::trig::lemma_sin_bounds(fx_mul_spec(o.color_speed as int, t));
    let blend = blend_spec(o, t);
    assert(0 <= blend <= FX_ONE as int);
    crate::mat::lemma_lerp_hull(o.base_color1.x as int, o.base_color2.x as int, blend);
    crate::mat::lemma_lerp_hull(o.base_color1.y as int, o.base_color2.y as int, blend);
    crate::mat::lemma_lerp_hull(o.base_color1.z as int, o.base_color2.z as int, blend);
    crate::mat::lemma_lerp_hull(o.base_color2.x as int, o.base_color1.x as int, blend);
    crate::mat::lemma_lerp_hull(o.base_color2.y as int, o.base_color1.y as int, blend);
    crate::mat::lemma_lerp_hull(o.base_color2.z as int, o.base_color1.z as int, blend);
}

/// The rotation animation is periodic: whenever the speed divides one
/// turn exactly (`speed * period == FX_TAU * FX_ONE`), the model
/// transform at `t + period` equals the one at `t`, for nonnegative
/// times and positive speeds.
pub proof fn lemma_rotation_periodic(o: SceneObject, t: int, period: int)
    requires
        o.rotation_speed > 0,
        0 <= t,
        0 < period,
        o.rotation_speed * period == (FX_TAU as int) * (FX_ONE as int),
    ensures
        model_spec(o, t + period) == model_spec(o, t),
{
    let s = o.rotation_speed as int;
    let one = FX_ONE as int;
    let a1 = rotation_angle_spec(o, t);
    assert(s * (t + period) == s * t + (FX_TAU as int) * one) by (nonlinear_arith)
        requires
            s * period == (FX_TAU as int) * one,
    ;
    vstd::arithmetic::div_mod::lemma_fundamental_div_mod(s * t, one);
    let q = (s * t) / one;
    let rem = (s * t) % one;
    assert(s * (t + period) == (q + FX_TAU as int) * one + rem) by (nonlinear_arith)
        requires
            s * (t + period) == s * t + (FX_TAU as int) * one,
            s * t == q * one + rem,
    ;
    vstd::arithmetic::div_mod::lemma_fundamental_div_mod_converse_div(
        s * (t + period),
        one,
        q + FX_TAU as int,
        rem,
    );
    assert(s * t >= 0) by (nonlinear_arith)
        requires
            s > 0,
            t >= 0,
    ;
    assert(s * (t + period) >= 0) by (nonlinear_arith)
        requires
            s > 0,
            t + period > 0,
    ;
    assert(rotation_angle_spec(o, t + period) == a1 + FX_TAU as int);
    crate::mat::lemma_axis_angle_periodic(normalize_spec(o.rotation_axis), a1);
}

/// The same periodicity for a negative speed: the angle retreats by
/// exactly one turn over the period, and the model transform repeats.
pub proof fn lemma_rotation_periodic_negative(o: SceneObject, t: int, period: int)
    requires
        o.rotation_speed < 0,
        0 <= t,
        0 < period,
        o.rotation_speed * period == -((FX_TAU as int) * (FX_ONE as int)),
    ensures
        model_spec(o, t + period) == model_spec(o, t),
{
    let m = -(o.rotation_speed as int);
    let one = FX_ONE as int;
    let a1 = rotation_angle_spec(o, t);
    assert(m * (t + period) == m * t + (FX_TAU as int) * one) by (nonlinear_arith)
        requires
            m == -(o.rotation_speed as int),
            o.rotation_speed * period == -((FX_TAU as int) * one),
    ;
    vstd::arithmetic::div_mod::lemma_fundamental_div_mod(m * t, one);
    let q = (m * t) / one;
    let rem = (m * t) % one;
    assert(m * (t + period) == (q + FX_TAU as int) * one + rem) by (nonlinear_arith)
        requires
            m * (t + period) == m * t + (FX_TAU as int) * one,
            m * t == q * one + rem,
    ;
    vstd::arithmetic::div_mod::lemma_fundamental_div_mod_converse_div(
        m * (t + period),
        one,
        q + FX_TAU as int,
        rem,
    );
    assert(m * t >= 0) by (nonlinear_arith)
        requires
            m > 0,
            t >= 0,
    ;
    assert(m * (t + period) >= 0) by (nonlinear_arith)
        requires
            m > 0,
            t + period > 0,
    ;
    assert(rotation_angle_spec(o, t + period) == a1 - FX_TAU as int);
    crate::mat::lemma_axis_angle_periodic(normalize_spec(o.rotation_axis), a1);
}

/// The 180-degree turn about `+y`, exactly.
pub open spec fn half_turn_y_spec() -> Mat4 {
    Mat4 {
        m00: (-FX_ONE) as i64,
        m01: 0,
        m02: 0,
        m03: 0,
        m10: 0,
        m11: FX_ONE,
        m12: 0,
        m13: 0,
        m20: 0,
        m21: 0,
        m22: (-FX_ONE) as i64,
        m23: 0,
        m30: 0,
        m31: 0,
        m32: 0,
        m33: FX_ONE,
    }
}

/// An entity without rotation animation keeps its base transform at
/// every time.
pub proof fn lemma_static_model(o: SceneObject, t: int)
    requires
        !o.animate_rotation,
    ensures
        model_spec(o, t) == o.base_model,
{
}

/// An entity spinning about `+y` at unit speed starts at its base
/// transform and reaches exactly the half turn at time pi.
pub proof fn lemma_half_turn_spin(o: SceneObject)
    requires
        object_wf(o),
        o.animate_rotation,
        o.rotation_axis == crate::mat::unit_y_spec(),
        o.rotation_speed == FX_ONE,
    ensures
        model_spec(o, 0) == o.base_model,
        model_spec(o, FX_PI as int) == mat_mul_spec(o.base_model, half_turn_y_spec()),
{
    crate::fx::lemma_fx_mul_zero(FX_ONE as int);
    crate::mat::lemma_normalize_unit_y();
    crate::mat::lemma_axis_angle_zero(normalize_spec(o.rotation_axis));
    crate::mat::lemma_mat_mul_identity(o.base_model);
    crate::fx::lemma_fx_mul_one(FX_PI as int);
    assert(rotation_angle_spec(o, FX_PI as int) == FX_PI as int);
    crate::mat::lemma_axis_angle_unit_y(FX_PI as int);
    crate::trig::lemma_trig_exact();
    assert(crate::mat::rot_y_spec(FX_PI as int) == half_turn_y_spec());
}

} // verus!
