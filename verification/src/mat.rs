//! Fixed-point vectors and 4x4 homogeneous matrices.
//!
//! Entries are fixed-point scalars (`crate::fx`), row-major: `mRC` is row
//! `R`, column `C`. The identity carries `FX_ONE` on its diagonal.
use vstd::prelude::*;

use crate::fx::fx_abs;
use crate::fx::fx_div_spec;
use crate::fx::fx_mul;
use crate::fx::fx_mul_spec;
use crate::fx::lemma_fx_mul_bound;
use crate::fx::lemma_fx_mul_one;
use crate::fx::lemma_fx_mul_zero;
use crate::fx::FX_LIMIT;
use crate::fx::FX_ONE;
use crate::trig::cos_fx;
use crate::trig::cos_spec;
use crate::trig::sin_fx;
use crate::trig::sin_spec;
use crate::trig::FX_ANGLE_LIMIT;

verus! {

/// Magnitude cap on the entries of matrices fed to the multiplier.
pub const MAT_LIMIT: i64 = 0x4000_0000;

/// Magnitude cap on the entries of a rotation matrix: each is a sum of a
/// cosine and two fixed-point products of unit-length factors.
pub const ROT_LIMIT: i64 = 4 * 65536;

#[derive(Clone, Copy, Debug, PartialEq, Eq, Structural)]
pub struct Vec3 {
    pub x: i64,
    pub y: i64,
    pub z: i64,
}

#[derive(Clone, Copy, Debug, PartialEq, Eq, Structural)]
pub struct Mat4 {
    pub m00: i64,
    pub m01: i64,
    pub m02: i64,
    pub m03: i64,
    pub m10: i64,
    pub m11: i64,
    pub m12: i64,
    pub m13: i64,
    pub m20: i64,
    pub m21: i64,
    pub m22: i64,
    pub m23: i64,
    pub m30: i64,
    pub m31: i64,
    pub m32: i64,
    pub m33: i64,
}

pub open spec fn vec3_bounded(v: Vec3, b: int) -> bool {
    &&& fx_abs(v.x as int) <= b
    &&& fx_abs(v.y as int) <= b
    &&& fx_abs(v.z as int) <= b
}

pub open spec fn mat_bounded(m: Mat4, b: int) -> bool {
    &&& fx_abs(m.m00 as int) <= b
    &&& fx_abs(m.m01 as int) <= b
    &&& fx_abs(m.m02 as int) <= b
    &&& fx_abs(m.m03 as int) <= b
    &&& fx_abs(m.m10 as int) <= b
    &&& fx_abs(m.m11 as int) <= b
    &&& fx_abs(m.m12 as int) <= b
    &&& fx_abs(m.m13 as int) <= b
    &&& fx_abs(m.m20 as int) <= b
    &&& fx_abs(m.m21 as int) <= b
    &&& fx_abs(m.m22 as int) <= b
    &&& fx_abs(m.m23 as int) <= b
    &&& fx_abs(m.m30 as int) <= b
    &&& fx_abs(m.m31 as int) <= b
    &&& fx_abs(m.m32 as int) <= b
    &&& fx_abs(m.m33 as int) <= b
}

pub open spec fn fx_dot4_spec(
    a0: int,
    a1: int,
    a2: int,
    a3: int,
    b0: int,
    b1: int,
    b2: int,
    b3: int,
) -> int {
    fx_mul_spec(a0, b0) + fx_mul_spec(a1, b1) + fx_mul_spec(a2, b2) + fx_mul_spec(a3, b3)
}

pub proof fn lemma_fx_dot4_bound(
    a0: int,
    a1: int,
    a2: int,
    a3: int,
    b0: int,
    b1: int,
    b2: int,
    b3: int,
    p: int,
    q: int,
)
    requires
        0 <= p,
        0 <= q,
        fx_abs(a0) <= p,
        fx_abs(a1) <= p,
        fx_abs(a2) <= p,
        fx_abs(a3) <= p,
        fx_abs(b0) <= q,
        fx_abs(b1) <= q,
        fx_abs(b2) <= q,
        fx_abs(b3) <= q,
    ensures
        fx_abs(fx_dot4_spec(a0, a1, a2, a3, b0, b1, b2, b3)) <= 4 * (p * q / (FX_ONE as int)),
{
    lemma_fx_mul_bound(a0, b0, p, q);
    lemma_fx_mul_bound(a1, b1, p, q);
    lemma_fx_mul_bound(a2, b2, p, q);
    lemma_fx_mul_bound(a3, b3, p, q);
}

fn fx_dot4(a0: i64, a1: i64, a2: i64, a3: i64, b0: i64, b1: i64, b2: i64, b3: i64) -> (r: i64)
    requires
        fx_abs(a0 as int) <= MAT_LIMIT as int,
        fx_abs(a1 as int) <= MAT_LIMIT as int,
        fx_abs(a2 as int) <= MAT_LIMIT as int,
        fx_abs(a3 as int) <= MAT_LIMIT as int,
        fx_abs(b0 as int) <= MAT_LIMIT as int,
        fx_abs(b1 as int) <= MAT_LIMIT as int,
        fx_abs(b2 as int) <= MAT_LIMIT as int,
        fx_abs(b3 as int) <= MAT_LIMIT as int,
    ensures
        r as int == fx_dot4_spec(
            a0 as int,
            a1 as int,
            a2 as int,
            a3 as int,
            b0 as int,
            b1 as int,
            b2 as int,
            b3 as int,
        ),
{
    proof {
        let l = MAT_LIMIT as int;
        lemma_fx_mul_bound(a0 as int, b0 as int, l, l);
        lemma_fx_mul_bound(a1 as int, b1 as int, l, l);
        lemma_fx_mul_bound(a2 as int, b2 as int, l, l);
        lemma_fx_mul_bound(a3 as int, b3 as int, l, l);
    }
    fx_mul(a0, b0) + fx_mul(a1, b1) + fx_mul(a2, b2) + fx_mul(a3, b3)
}

/// Row-by-column product of two fixed-point matrices.
pub open spec fn mat_mul_spec(a: Mat4, b: Mat4) -> Mat4 {
    Mat4 {
        m00: fx_dot4_spec(
            a.m00 as int,
            a.m01 as int,
            a.m02 as int,
            a.m03 as int,
            b.m00 as int,
            b.m10 as int,
            b.m20 as int,
            b.m30 as int,
        ) as i64,
        m01: fx_dot4_spec(
            a.m00 as int,
            a.m01 as int,
            a.m02 as int,
            a.m03 as int,
            b.m01 as int,
            b.m11 as int,
            b.m21 as int,
            b.m31 as int,
        ) as i64,
        m02: fx_dot4_spec(
            a.m00 as int,
            a.m01 as int,
            a.m02 as int,
            a.m03 as int,
            b.m02 as int,
            b.m12 as int,
            b.m22 as int,
            b.m32 as int,
        ) as i64,
        m03: fx_dot4_spec(
            a.m00 as int,
            a.m01 as int,
            a.m02 as int,
            a.m03 as int,
            b.m03 as int,
            b.m13 as int,
            b.m23 as int,
            b.m33 as int,
        ) as i64,
        m10: fx_dot4_spec(
            a.m10 as int,
            a.m11 as int,
            a.m12 as int,
            a.m13 as int,
            b.m00 as int,
            b.m10 as int,
            b.m20 as int,
            b.m30 as int,
        ) as i64,
        m11: fx_dot4_spec(
            a.m10 as int,
            a.m11 as int,
            a.m12 as int,
            a.m13 as int,
            b.m01 as int,
            b.m11 as int,
            b.m21 as int,
            b.m31 as int,
        ) as i64,
        m12: fx_dot4_spec(
            a.m10 as int,
            a.m11 as int,
            a.m12 as int,
            a.m13 as int,
            b.m02 as int,
            b.m12 as int,
            b.m22 as int,
            b.m32 as int,
        ) as i64,
        m13: fx_dot4_spec(
            a.m10 as int,
            a.m11 as int,
            a.m12 as int,
            a.m13 as int,
            b.m03 as int,
            b.m13 as int,
            b.m23 as int,
            b.m33 as int,
        ) as i64,
        m20: fx_dot4_spec(
            a.m20 as int,
            a.m21 as int,
            a.m22 as int,
            a.m23 as int,
            b.m00 as int,
            b.m10 as int,
            b.m20 as int,
            b.m30 as int,
        ) as i64,
        m21: fx_dot4_spec(
            a.m20 as int,
            a.m21 as int,
            a.m22 as int,
            a.m23 as int,
            b.m01 as int,
            b.m11 as int,
            b.m21 as int,
            b.m31 as int,
        ) as i64,
        m22: fx_dot4_spec(
            a.m20 as int,
            a.m21 as int,
            a.m22 as int,
            a.m23 as int,
            b.m02 as int,
            b.m12 as int,
            b.m22 as int,
            b.m32 as int,
        ) as i64,
        m23: fx_dot4_spec(
            a.m20 as int,
            a.m21 as int,
            a.m22 as int,
            a.m23 as int,
            b.m03 as int,
            b.m13 as int,
            b.m23 as int,
            b.m33 as int,
        ) as i64,
        m30: fx_dot4_spec(
            a.m30 as int,
            a.m31 as int,
            a.m32 as int,
            a.m33 as int,
            b.m00 as int,
            b.m10 as int,
            b.m20 as int,
            b.m30 as int,
        ) as i64,
        m31: fx_dot4_spec(
            a.m30 as int,
            a.m31 as int,
            a.m32 as int,
            a.m33 as int,
            b.m01 as int,
            b.m11 as int,
            b.m21 as int,
            b.m31 as int,
        ) as i64,
        m32: fx_dot4_spec(
            a.m30 as int,
            a.m31 as int,
            a.m32 as int,
            a.m33 as int,
            b.m02 as int,
            b.m12 as int,
            b.m22 as int,
            b.m32 as int,
        ) as i64,
        m33: fx_dot4_spec(
            a.m30 as int,
            a.m31 as int,
            a.m32 as int,
            a.m33 as int,
            b.m03 as int,
            b.m13 as int,
            b.m23 as int,
            b.m33 as int,
        ) as i64,
    }
}

/// Entry bound carried through a product of bounded matrices.
pub proof fn lemma_mat_mul_bound(a: Mat4, b: Mat4, p: int, q: int)
    requires
        0 <= p,
        0 <= q,
        mat_bounded(a, p),
        mat_bounded(b, q),
    ensures
        mat_bounded(mat_mul_spec(a, b), 4 * (p * q / (FX_ONE as int))),
{
    lemma_fx_dot4_bound(a.m00 as int, a.m01 as int, a.m02 as int, a.m03 as int, b.m00 as int, b.m10 as int, b.m20 as int, b.m30 as int, p, q);
    lemma_fx_dot4_bound(a.m00 as int, a.m01 as int, a.m02 as int, a.m03 as int, b.m01 as int, b.m11 as int, b.m21 as int, b.m31 as int, p, q);
    lemma_fx_dot4_bound(a.m00 as int, a.m01 as int, a.m02 as int, a.m03 as int, b.m02 as int, b.m12 as int, b.m22 as int, b.m32 as int, p, q);
    lemma_fx_dot4_bound(a.m00 as int, a.m01 as int, a.m02 as int, a.m03 as int, b.m03 as int, b.m13 as int, b.m23 as int, b.m33 as int, p, q);
    lemma_fx_dot4_bound(a.m10 as int, a.m11 as int, a.m12 as int, a.m13 as int, b.m00 as int, b.m10 as int, b.m20 as int, b.m30 as int, p, q);
    lemma_fx_dot4_bound(a.m10 as int, a.m11 as int, a.m12 as int, a.m13 as int, b.m01 as int, b.m11 as int, b.m21 as int, b.m31 as int, p, q);
    lemma_fx_dot4_bound(a.m10 as int, a.m11 as int, a.m12 as int, a.m13 as int, b.m02 as int, b.m12 as int, b.m22 as int, b.m32 as int, p, q);
    lemma_fx_dot4_bound(a.m10 as int, a.m11 as int, a.m12 as int, a.m13 as int, b.m03 as int, b.m13 as int, b.m23 as int, b.m33 as int, p, q);
    lemma_fx_dot4_bound(a.m20 as int, a.m21 as int, a.m22 as int, a.m23 as int, b.m00 as int, b.m10 as int, b.m20 as int, b.m30 as int, p, q);
    lemma_fx_dot4_bound(a.m20 as int, a.m21 as int, a.m22 as int, a.m23 as int, b.m01 as int, b.m11 as int, b.m21 as int, b.m31 as int, p, q);
    lemma_fx_dot4_bound(a.m20 as int, a.m21 as int, a.m22 as int, a.m23 as int, b.m02 as int, b.m12 as int, b.m22 as int, b.m32 as int, p, q);
    lemma_fx_dot4_bound(a.m20 as int, a.m21 as int, a.m22 as int, a.m23 as int, b.m03 as int, b.m13 as int, b.m23 as int, b.m33 as int, p, q);
    lemma_fx_dot4_bound(a.m30 as int, a.m31 as int, a.m32 as int, a.m33 as int, b.m00 as int, b.m10 as int, b.m20 as int, b.m30 as int, p, q);
    lemma_fx_dot4_bound(a.m30 as int, a.m31 as int, a.m32 as int, a.m33 as int, b.m01 as int, b.m11 as int, b.m21 as int, b.m31 as int, p, q);
    lemma_fx_dot4_bound(a.m30 as int, a.m31 as int, a.m32 as int, a.m33 as int, b.m02 as int, b.m12 as int, b.m22 as int, b.m32 as int, p, q);
    lemma_fx_dot4_bound(a.m30 as int, a.m31 as int, a.m32 as int, a.m33 as int, b.m03 as int, b.m13 as int, b.m23 as int, b.m33 as int, p, q);
}

impl Mat4 {
    /// The identity transform.
    pub fn identity() -> (r: Mat4)
        ensures
            r == identity_spec(),
    {
        Mat4 {
            m00: FX_ONE,
            m01: 0,
            m02: 0,
            m03: 0,
            m10: 0,
            m11: FX_ONE,
            m12: 0,
            m13: 0,
            m20: 0,
            m21: 0,
            m22: FX_ONE,
            m23: 0,
            m30: 0,
            m31: 0,
            m32: 0,
            m33: FX_ONE,
        }
    }

    /// Translation by `v`.
    pub fn from_translation(v: Vec3) -> (r: Mat4)
        ensures
            r == translation_spec(v),
    {
        Mat4 {
            m00: FX_ONE,
            m01: 0,
            m02: 0,
            m03: v.x,
            m10: 0,
            m11: FX_ONE,
            m12: 0,
            m13: v.y,
            m20: 0,
            m21: 0,
            m22: FX_ONE,
            m23: v.z,
            m30: 0,
            m31: 0,
            m32: 0,
            m33: FX_ONE,
        }
    }

    /// Uniform scale by the fixed-point factor `s`.
    pub fn from_scale(s: i64) -> (r: Mat4)
        ensures
            r == scale_spec(s as int),
    {
        Mat4 {
            m00: s,
            m01: 0,
            m02: 0,
            m03: 0,
            m10: 0,
            m11: s,
            m12: 0,
            m13: 0,
            m20: 0,
            m21: 0,
            m22: s,
            m23: 0,
            m30: 0,
            m31: 0,
            m32: 0,
            m33: FX_ONE,
        }
    }

    /// Rotation about the `y` axis by `angle` fixed-point radians.
    pub fn from_angle_y(angle: i64) -> (r: Mat4)
        requires
            -FX_ANGLE_LIMIT <= angle <= FX_ANGLE_LIMIT,
        ensures
            r == rot_y_spec(angle as int),
            mat_bounded(r, ROT_LIMIT as int),
    {
        let c = cos_fx(angle);
        let s = sin_fx(angle);
        Mat4 {
            m00: c,
            m01: 0,
            m02: s,
            m03: 0,
            m10: 0,
            m11: FX_ONE,
            m12: 0,
            m13: 0,
            m20: -s,
            m21: 0,
            m22: c,
            m23: 0,
            m30: 0,
            m31: 0,
            m32: 0,
            m33: FX_ONE,
        }
    }

    /// Product `self * other`, applying `other` first.
    pub fn mul(&self, other: &Mat4) -> (r: Mat4)
        requires
            mat_bounded(*self, MAT_LIMIT as int),
            mat_bounded(*other, MAT_LIMIT as int),
        ensures
            r == mat_mul_spec(*self, *other),
    {
        Mat4 {
            m00: fx_dot4(self.m00, self.m01, self.m02, self.m03, other.m00, other.m10, other.m20, other.m30),
            m01: fx_dot4(self.m00, self.m01, self.m02, self.m03, other.m01, other.m11, other.m21, other.m31),
            m02: fx_dot4(self.m00, self.m01, self.m02, self.m03, other.m02, other.m12, other.m22, other.m32),
            m03: fx_dot4(self.m00, self.m01, self.m02, self.m03, other.m03, other.m13, other.m23, other.m33),
            m10: fx_dot4(self.m10, self.m11, self.m12, self.m13, other.m00, other.m10, other.m20, other.m30),
            m11: fx_dot4(self.m10, self.m11, self.m12, self.m13, other.m01, other.m11, other.m21, other.m31),
            m12: fx_dot4(self.m10, self.m11, self.m12, self.m13, other.m02, other.m12, other.m22, other.m32),
            m13: fx_dot4(self.m10, self.m11, self.m12, self.m13, other.m03, other.m13, other.m23, other.m33),
            m20: fx_dot4(self.m20, self.m21, self.m22, self.m23, other.m00, other.m10, other.m20, other.m30),
            m21: fx_dot4(self.m20, self.m21, self.m22, self.m23, other.m01, other.m11, other.m21, other.m31),
            m22: fx_dot4(self.m20, self.m21, self.m22, self.m23, other.m02, other.m12, other.m22, other.m32),
            m23: fx_dot4(self.m20, self.m21, self.m22, self.m23, other.m03, other.m13, other.m23, other.m33),
            m30: fx_dot4(self.m30, self.m31, self.m32, self.m33, other.m00, other.m10, other.m20, other.m30),
            m31: fx_dot4(self.m30, self.m31, self.m32, self.m33, other.m01, other.m11, other.m21, other.m31),
            m32: fx_dot4(self.m30, self.m31, self.m32, self.m33, other.m02, other.m12, other.m22, other.m32),
            m33: fx_dot4(self.m30, self.m31, self.m32, self.m33, other.m03, other.m13, other.m23, other.m33),
        }
    }
}

pub open spec fn identity_spec() -> Mat4 {
    Mat4 {
        m00: FX_ONE,
        m01: 0,
        m02: 0,
        m03: 0,
        m10: 0,
        m11: FX_ONE,
        m12: 0,
        m13: 0,
        m20: 0,
        m21: 0,
        m22: FX_ONE,
        m23: 0,
        m30: 0,
        m31: 0,
        m32: 0,
        m33: FX_ONE,
    }
}

pub open spec fn translation_spec(v: Vec3) -> Mat4 {
    Mat4 {
        m00: FX_ONE,
        m01: 0,
        m02: 0,
        m03: v.x,
        m10: 0,
        m11: FX_ONE,
        m12: 0,
        m13: v.y,
        m20: 0,
        m21: 0,
        m22: FX_ONE,
        m23: v.z,
        m30: 0,
        m31: 0,
        m32: 0,
        m33: FX_ONE,
    }
}

pub open spec fn scale_spec(s: int) -> Mat4 {
    Mat4 {
        m00: s as i64,
        m01: 0,
        m02: 0,
        m03: 0,
        m10: 0,
        m11: s as i64,
        m12: 0,
        m13: 0,
        m20: 0,
        m21: 0,
        m22: s as i64,
        m23: 0,
        m30: 0,
        m31: 0,
        m32: 0,
        m33: FX_ONE,
    }
}

pub open spec fn rot_y_spec(angle: int) -> Mat4 {
    Mat4 {
        m00: cos_spec(angle) as i64,
        m01: 0,
        m02: sin_spec(angle) as i64,
        m03: 0,
        m10: 0,
        m11: FX_ONE,
        m12: 0,
        m13: 0,
        m20: (-sin_spec(angle)) as i64,
        m21: 0,
        m22: cos_spec(angle) as i64,
        m23: 0,
        m30: 0,
        m31: 0,
        m32: 0,
        m33: FX_ONE,
    }
}

/// Multiplying a bounded matrix by the identity on the right returns it
/// unchanged: no animation means the base transform is passed through.
pub proof fn lemma_mat_mul_identity(m: Mat4)
    requires
        mat_bounded(m, FX_LIMIT as int),
    ensures
        mat_mul_spec(m, identity_spec()) == m,
{
    lemma_fx_mul_one(m.m00 as int);
    lemma_fx_mul_one(m.m01 as int);
    lemma_fx_mul_one(m.m02 as int);
    lemma_fx_mul_one(m.m03 as int);
    lemma_fx_mul_one(m.m10 as int);
    lemma_fx_mul_one(m.m11 as int);
    lemma_fx_mul_one(m.m12 as int);
    lemma_fx_mul_one(m.m13 as int);
    lemma_fx_mul_one(m.m20 as int);
    lemma_fx_mul_one(m.m21 as int);
    lemma_fx_mul_one(m.m22 as int);
    lemma_fx_mul_one(m.m23 as int);
    lemma_fx_mul_one(m.m30 as int);
    lemma_fx_mul_one(m.m31 as int);
    lemma_fx_mul_one(m.m32 as int);
    lemma_fx_mul_one(m.m33 as int);
    lemma_fx_mul_zero(m.m00 as int);
    lemma_fx_mul_zero(m.m01 as int);
    lemma_fx_mul_zero(m.m02 as int);
    lemma_fx_mul_zero(m.m03 as int);
    lemma_fx_mul_zero(m.m10 as int);
    lemma_fx_mul_zero(m.m11 as int);
    lemma_fx_mul_zero(m.m12 as int);
    lemma_fx_mul_zero(m.m13 as int);
    lemma_fx_mul_zero(m.m20 as int);
    lemma_fx_mul_zero(m.m21 as int);
    lemma_fx_mul_zero(m.m22 as int);
    lemma_fx_mul_zero(m.m23 as int);
    lemma_fx_mul_zero(m.m30 as int);
    lemma_fx_mul_zero(m.m31 as int);
    lemma_fx_mul_zero(m.m32 as int);
    lemma_fx_mul_zero(m.m33 as int);
}

/// Sum of the squared components of `v`.
pub open spec fn vec3_norm_sq(v: Vec3) -> int {
    v.x as int * v.x as int + v.y as int * v.y as int + v.z as int * v.z as int
}

/// The fixed-point unit vector along `v` given its length `n` in raw
/// units; `n` is the integer square root of the squared norm.
pub open spec fn vec3_scaled_by(v: Vec3, n: int) -> Vec3 {
    Vec3 { x: fx_div_spec(v.x as int, n) as i64, y: fx_div_spec(v.y as int, n) as i64, z: fx_div_spec(v.z as int, n) as i64 }
}

/// The defensive default rotation axis: `+y`, unit length.
pub open spec fn unit_y_spec() -> Vec3 {
    Vec3 { x: 0, y: FX_ONE, z: 0 }
}

/// The integer square root of `n`: the unique `r >= 0` with
/// `r * r <= n < (r + 1) * (r + 1)` (arbitrary for negative `n`, which
/// never arises here).
pub open spec fn isqrt_spec(n: int) -> int {
    choose|r: int| 0 <= r && #[trigger] (r * r) <= n && n < (r + 1) * (r + 1)
}

/// Any root bracketing `n` is the integer square root: the bracketing
/// root is unique.
pub proof fn lemma_isqrt_unique(n: int, r: int)
    requires
        0 <= r,
        r * r <= n,
        n < (r + 1) * (r + 1),
    ensures
        isqrt_spec(n) == r,
{
    assert(0 <= r && r * r <= n && n < (r + 1) * (r + 1));
    let w = isqrt_spec(n);
    assert(0 <= w && w * w <= n && n < (w + 1) * (w + 1)) by {
        assert(exists|q: int| 0 <= q && #[trigger] (q * q) <= n && n < (q + 1) * (q + 1)) by {
            assert(0 <= r && r * r <= n && n < (r + 1) * (r + 1));
        }
    }
    assert(w == r) by (nonlinear_arith)
        requires
            0 <= w,
            w * w <= n,
            n < (w + 1) * (w + 1),
            0 <= r,
            r * r <= n,
            n < (r + 1) * (r + 1),
    ;
}

/// A rotation axis brought to fixed-point unit length: each component is
/// divided by the vector's length in raw units; the zero axis falls back
/// to `+y`.
pub open spec fn normalize_spec(v: Vec3) -> Vec3 {
    if v == (Vec3 { x: 0i64, y: 0i64, z: 0i64 }) {
        unit_y_spec()
    } else {
        vec3_scaled_by(v, isqrt_spec(vec3_norm_sq(v)))
    }
}

/// The `+y` unit axis normalizes to itself, exactly.
pub proof fn lemma_normalize_unit_y()
    ensures
        normalize_spec(unit_y_spec()) == unit_y_spec(),
{
    let s = FX_ONE as int;
    let v = unit_y_spec();
    assert(vec3_norm_sq(v) == s * s) by (nonlinear_arith)
        requires
            v.x == 0 && v.y as int == s && v.z == 0,
    ;
    assert(s * s < (s + 1) * (s + 1)) by (nonlinear_arith)
        requires
            s > 0,
    ;
    lemma_isqrt_unique(s * s, s);
    vstd::arithmetic::div_mod::lemma_div_multiples_vanish(s, s);
    vstd::arithmetic::div_mod::lemma_div_of0(s);
    assert(crate::fx::fx_abs(0int) * s == 0) by (nonlinear_arith);
    assert(fx_div_spec(0, s) == 0);
    assert(fx_div_spec(s, s) == s);
}

/// Magnitude cap on rotation-axis components handed to `normalize_axis`.
pub const AXIS_LIMIT: i64 = 0x4000_0000;

/// Integer square root: the greatest `r` with `r * r <= n`.
pub fn isqrt64(n: u64) -> (r: u64)
    requires
        n < 0x4000_0000_0000_0000,
    ensures
        r as int * r as int <= n as int,
        (n as int) < (r as int + 1) * (r as int + 1),
        r <= 0x8000_0000,
{
    if n == 0 {
        return 0;
    }
    let mut lo: u64 = 0;
    let mut hi: u64 = 0x8000_0000;
    assert(hi as int * hi as int > n as int) by (nonlinear_arith)
        requires
            hi == 0x8000_0000u64,
            n < 0x4000_0000_0000_0000,
    ;
    while hi - lo > 1
        invariant
            lo < hi <= 0x8000_0000,
            lo as int * lo as int <= n as int,
            hi as int * hi as int > n as int,
            n < 0x4000_0000_0000_0000,
        decreases hi - lo,
    {
        let mid: u64 = lo + (hi - lo) / 2;
        assert(lo < mid < hi);
        assert(mid * mid < 0x4000_0000_0000_0000 + 0x4000_0000_0000_0000) by (nonlinear_arith)
            requires
                mid <= 0x8000_0000u64,
        ;
        if mid * mid <= n {
            lo = mid;
        } else {
            hi = mid;
        }
    }
    lo
}

/// Normalize a rotation axis to fixed-point unit length; a zero axis
/// falls back to `+y`, so a degenerate configuration can never produce a
/// degenerate rotation.
pub fn normalize_axis(v: Vec3) -> (u: Vec3)
    requires
        vec3_bounded(v, AXIS_LIMIT as int),
    ensures
        u == normalize_spec(v),
        vec3_bounded(u, FX_ONE as int),
{
    if v.x == 0 && v.y == 0 && v.z == 0 {
        return Vec3 { x: 0, y: FX_ONE, z: 0 };
    }
    assert(0 <= (v.x as int) * (v.x as int) && (v.x as int) * (v.x as int)
        <= 0x1000_0000_0000_0000 && (v.x != 0i64 ==> (v.x as int) * (v.x as int) > 0))
        by (nonlinear_arith)
        requires
            fx_abs(v.x as int) <= 0x4000_0000,
            fx_abs(v.x as int) == if v.x as int >= 0 { v.x as int } else { -(v.x as int) },
    ;
    assert(0 <= (v.y as int) * (v.y as int) && (v.y as int) * (v.y as int)
        <= 0x1000_0000_0000_0000 && (v.y != 0i64 ==> (v.y as int) * (v.y as int) > 0))
        by (nonlinear_arith)
        requires
            fx_abs(v.y as int) <= 0x4000_0000,
            fx_abs(v.y as int) == if v.y as int >= 0 { v.y as int } else { -(v.y as int) },
    ;
    assert(0 <= (v.z as int) * (v.z as int) && (v.z as int) * (v.z as int)
        <= 0x1000_0000_0000_0000 && (v.z != 0i64 ==> (v.z as int) * (v.z as int) > 0))
        by (nonlinear_arith)
        requires
            fx_abs(v.z as int) <= 0x4000_0000,
            fx_abs(v.z as int) == if v.z as int >= 0 { v.z as int } else { -(v.z as int) },
    ;
    let xx: i64 = v.x * v.x;
    let yy: i64 = v.y * v.y;
    let zz: i64 = v.z * v.z;
    let ssq: u64 = (xx + yy + zz) as u64;
    let n: u64 = isqrt64(ssq);
    assert(n >= 1) by (nonlinear_arith)
        requires
            n as int * n as int <= ssq as int,
            (ssq as int) < (n as int + 1) * (n as int + 1),
            ssq as int > 0,
    ;
    proof {
        lemma_component_le_norm(v.x as int, ssq as int - xx as int, n as int);
        lemma_component_le_norm(v.y as int, ssq as int - yy as int, n as int);
        lemma_component_le_norm(v.z as int, ssq as int - zz as int, n as int);
        crate::fx::lemma_fx_div_unit(v.x as int, n as int);
        crate::fx::lemma_fx_div_unit(v.y as int, n as int);
        crate::fx::lemma_fx_div_unit(v.z as int, n as int);
    }
    let u = Vec3 { x: crate::fx::fx_div(v.x, n as i64), y: crate::fx::fx_div(v.y, n as i64), z: crate::fx::fx_div(v.z, n as i64) };
    proof {
        lemma_isqrt_unique(ssq as int, n as int);
        assert(u == vec3_scaled_by(v, isqrt_spec(vec3_norm_sq(v))));
    }
    u
}

/// A component is no longer than the whole vector: if `c^2 + rest == s`
/// with `rest >= 0` and `s < (n+1)^2`, then `|c| <= n`.
proof fn lemma_component_le_norm(c: int, rest: int, n: int)
    requires
        rest >= 0,
        n >= 0,
        c * c + rest < (n + 1) * (n + 1),
    ensures
        fx_abs(c) <= n,
{
    assert(fx_abs(c) <= n) by (nonlinear_arith)
        requires
            rest >= 0,
            n >= 0,
            c * c + rest < (n + 1) * (n + 1),
            fx_abs(c) == if c >= 0 { c } else { -c },
    ;
}

/// Rotation about the unit axis `u` by `angle` fixed-point radians
/// (the Rodrigues form, fixed point).
pub open spec fn axis_angle_spec(u: Vec3, angle: int) -> Mat4 {
    let c = cos_spec(angle);
    let s = sin_spec(angle);
    let t = (FX_ONE as int) - c;
    let ux = u.x as int;
    let uy = u.y as int;
    let uz = u.z as int;
    Mat4 {
        m00: (fx_mul_spec(fx_mul_spec(t, ux), ux) + c) as i64,
        m01: (fx_mul_spec(fx_mul_spec(t, ux), uy) - fx_mul_spec(s, uz)) as i64,
        m02: (fx_mul_spec(fx_mul_spec(t, ux), uz) + fx_mul_spec(s, uy)) as i64,
        m03: 0,
        m10: (fx_mul_spec(fx_mul_spec(t, ux), uy) + fx_mul_spec(s, uz)) as i64,
        m11: (fx_mul_spec(fx_mul_spec(t, uy), uy) + c) as i64,
        m12: (fx_mul_spec(fx_mul_spec(t, uy), uz) - fx_mul_spec(s, ux)) as i64,
        m13: 0,
        m20: (fx_mul_spec(fx_mul_spec(t, ux), uz) - fx_mul_spec(s, uy)) as i64,
        m21: (fx_mul_spec(fx_mul_spec(t, uy), uz) + fx_mul_spec(s, ux)) as i64,
        m22: (fx_mul_spec(fx_mul_spec(t, uz), uz) + c) as i64,
        m23: 0,
        m30: 0,
        m31: 0,
        m32: 0,
        m33: FX_ONE,
    }
}

impl Mat4 {
    /// Rotation about an already-normalized axis.
    pub fn from_axis_angle(u: Vec3, angle: i64) -> (r: Mat4)
        requires
            vec3_bounded(u, FX_ONE as int),
            -FX_ANGLE_LIMIT <= angle <= FX_ANGLE_LIMIT,
        ensures
            r == axis_angle_spec(u, angle as int),
            mat_bounded(r, ROT_LIMIT as int),
    {
        let c = cos_fx(angle);
        let s = sin_fx(angle);
        let t: i64 = FX_ONE - c;
        proof {
            let ti = t as int;
            let one = FX_ONE as int;
            lemma_fx_mul_bound(ti, u.x as int, 2 * one, one);
            lemma_fx_mul_bound(ti, u.y as int, 2 * one, one);
            lemma_fx_mul_bound(ti, u.z as int, 2 * one, one);
            lemma_fx_mul_bound(fx_mul_spec(ti, u.x as int), u.x as int, 2 * one, one);
            lemma_fx_mul_bound(fx_mul_spec(ti, u.x as int), u.y as int, 2 * one, one);
            lemma_fx_mul_bound(fx_mul_spec(ti, u.x as int), u.z as int, 2 * one, one);
            lemma_fx_mul_bound(fx_mul_spec(ti, u.y as int), u.y as int, 2 * one, one);
            lemma_fx_mul_bound(fx_mul_spec(ti, u.y as int), u.z as int, 2 * one, one);
            lemma_fx_mul_bound(fx_mul_spec(ti, u.z as int), u.z as int, 2 * one, one);
            lemma_fx_mul_bound(s as int, u.x as int, one, one);
            lemma_fx_mul_bound(s as int, u.y as int, one, one);
            lemma_fx_mul_bound(s as int, u.z as int, one, one);
        }
        let txx = fx_mul(fx_mul(t, u.x), u.x);
        let txy = fx_mul(fx_mul(t, u.x), u.y);
        let txz = fx_mul(fx_mul(t, u.x), u.z);
        let tyy = fx_mul(fx_mul(t, u.y), u.y);
        let tyz = fx_mul(fx_mul(t, u.y), u.z);
        let tzz = fx_mul(fx_mul(t, u.z), u.z);
        let sx = fx_mul(s, u.x);
        let sy = fx_mul(s, u.y);
        let sz = fx_mul(s, u.z);
        Mat4 {
            m00: txx + c,
            m01: txy - sz,
            m02: txz + sy,
            m03: 0,
            m10: txy + sz,
            m11: tyy + c,
            m12: tyz - sx,
            m13: 0,
            m20: txz - sy,
            m21: tyz + sx,
            m22: tzz + c,
            m23: 0,
            m30: 0,
            m31: 0,
            m32: 0,
            m33: FX_ONE,
        }
    }
}

/// About the exact `+y` unit axis, the Rodrigues form collapses to the
/// plain `y`-rotation matrix.
pub proof fn lemma_axis_angle_unit_y(angle: int)
    ensures
        axis_angle_spec(unit_y_spec(), angle) == rot_y_spec(angle),
{
    let c = cos_spec(angle);
    let s = sin_spec(angle);
    let t = (FX_ONE as int) - c;
    crate::trig::lemma_sin_bounds(angle);
    crate::trig::lemma_sin_bounds(angle + (crate::trig::FX_HALF_PI as int));
    lemma_fx_mul_zero(t);
    lemma_fx_mul_one(t);
    lemma_fx_mul_zero(fx_mul_spec(t, 0));
    lemma_fx_mul_zero(fx_mul_spec(t, FX_ONE as int));
    lemma_fx_mul_zero(s);
    lemma_fx_mul_one(s);
    assert(fx_mul_spec(fx_mul_spec(t, FX_ONE as int), FX_ONE as int) == t) by {
        lemma_fx_mul_one(t);
        lemma_fx_mul_one(fx_mul_spec(t, FX_ONE as int));
    }
}

/// A rotation by angle zero is the identity, whatever the axis.
pub proof fn lemma_axis_angle_zero(u: Vec3)
    ensures
        axis_angle_spec(u, 0) == identity_spec(),
{
    crate::trig::lemma_trig_exact();
    lemma_fx_mul_zero(u.x as int);
    lemma_fx_mul_zero(u.y as int);
    lemma_fx_mul_zero(u.z as int);
    lemma_fx_mul_zero(fx_mul_spec(0, u.x as int));
    lemma_fx_mul_zero(fx_mul_spec(0, u.y as int));
    lemma_fx_mul_zero(fx_mul_spec(0, u.z as int));
}

/// An axis-angle rotation is exactly periodic in the angle, with period
/// one turn, in either direction.
pub proof fn lemma_axis_angle_periodic(u: Vec3, angle: int)
    ensures
        axis_angle_spec(u, angle + crate::trig::FX_TAU as int) == axis_angle_spec(u, angle),
        axis_angle_spec(u, angle - crate::trig::FX_TAU as int) == axis_angle_spec(u, angle),
{
    crate::trig::lemma_sin_periodic(angle);
    crate::trig::lemma_cos_periodic(angle);
    crate::trig::lemma_sin_periodic_down(angle);
    crate::trig::lemma_cos_periodic_down(angle);
}

/// Channel-wise linear interpolation `a + (b - a) * t` at fixed-point
/// blend factor `t`.
pub open spec fn lerp_spec(a: int, b: int, t: int) -> int {
    a + fx_mul_spec(b - a, t)
}

/// Magnitude cap on color channels fed to the interpolator.
pub const COLOR_LIMIT: i64 = 0x100_0000;

/// Interpolation with `t` in `[0, FX_ONE]` never leaves the interval
/// spanned by its endpoints.
pub proof fn lemma_lerp_hull(a: int, b: int, t: int)
    requires
        0 <= t <= FX_ONE as int,
    ensures
        a <= b ==> a <= lerp_spec(a, b, t) <= b,
        b <= a ==> b <= lerp_spec(a, b, t) <= a,
{
    let s = FX_ONE as int;
    let d = b - a;
    if d >= 0 {
        assert(0 <= d * t <= d * s) by (nonlinear_arith)
            requires
                d >= 0,
                0 <= t <= s,
        ;
        assert(0 <= d * t / s <= d) by (nonlinear_arith)
            requires
                0 <= d * t <= d * s,
                s > 0,
        ;
    } else {
        assert(0 <= (-d) * t <= (-d) * s) by (nonlinear_arith)
            requires
                -d >= 0,
                0 <= t <= s,
        ;
        assert(0 <= (-d) * t / s <= -d) by (nonlinear_arith)
            requires
                0 <= (-d) * t <= (-d) * s,
                s > 0,
        ;
    }
}

/// Channel-wise interpolation as a vector.
pub open spec fn vec3_lerp_spec(a: Vec3, b: Vec3, t: int) -> Vec3 {
    Vec3 {
        x: lerp_spec(a.x as int, b.x as int, t) as i64,
        y: lerp_spec(a.y as int, b.y as int, t) as i64,
        z: lerp_spec(a.z as int, b.z as int, t) as i64,
    }
}

/// Channel-wise interpolation of two colors.
pub fn vec3_lerp(a: Vec3, b: Vec3, t: i64) -> (r: Vec3)
    requires
        vec3_bounded(a, COLOR_LIMIT as int),
        vec3_bounded(b, COLOR_LIMIT as int),
        0 <= t <= FX_ONE,
    ensures
        r == vec3_lerp_spec(a, b, t as int),
        vec3_bounded(r, COLOR_LIMIT as int),
{
    proof {
        lemma_lerp_hull(a.x as int, b.x as int, t as int);
        lemma_lerp_hull(a.y as int, b.y as int, t as int);
        lemma_lerp_hull(a.z as int, b.z as int, t as int);
    }
    Vec3 { x: a.x + fx_mul(b.x - a.x, t), y: a.y + fx_mul(b.y - a.y, t), z: a.z + fx_mul(
        b.z - a.z,
        t,
    ) }
}

} // verus!
