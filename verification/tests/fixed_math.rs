use orbit_scene::fx::{fx_clamp, fx_div, fx_mul, FX_ONE};
use orbit_scene::mat::{Mat4, Vec3};
use orbit_scene::trig::{cos_fx, fx_mod_tau, sin_fx, FX_HALF_PI, FX_PI, FX_TAU};

#[test]
fn fx_mul_exact_products() {
    // 2.0 * 1.5 == 3.0
    assert_eq!(fx_mul(131072, 98304), 196608);
    // sign handling, rounded toward zero
    assert_eq!(fx_mul(-131072, 98304), -196608);
    assert_eq!(fx_mul(131072, -98304), -196608);
    assert_eq!(fx_mul(-131072, -98304), 196608);
    assert_eq!(fx_mul(0, 98304), 0);
    assert_eq!(fx_mul(FX_ONE, 12345), 12345);
}

#[test]
fn fx_div_exact_quotients() {
    // 1.0 / 2.0 == 0.5
    assert_eq!(fx_div(FX_ONE, 131072), 32768);
    assert_eq!(fx_div(-FX_ONE, 131072), -32768);
    assert_eq!(fx_div(196608, 98304), 131072);
}

#[test]
fn clamp_projects_and_is_idempotent() {
    assert_eq!(fx_clamp(5, 10, 20), 10);
    assert_eq!(fx_clamp(25, 10, 20), 20);
    assert_eq!(fx_clamp(15, 10, 20), 15);
    let once = fx_clamp(-100, 10, 20);
    assert_eq!(fx_clamp(once, 10, 20), once);
}

#[test]
fn sine_quarter_points_exact() {
    assert_eq!(sin_fx(0), 0);
    assert_eq!(sin_fx(FX_HALF_PI), FX_ONE);
    assert_eq!(sin_fx(FX_PI), 0);
    assert_eq!(sin_fx(FX_PI + FX_HALF_PI), -FX_ONE);
    assert_eq!(cos_fx(0), FX_ONE);
    assert_eq!(cos_fx(FX_HALF_PI), 0);
    assert_eq!(cos_fx(FX_PI), -FX_ONE);
    assert_eq!(cos_fx(FX_PI + FX_HALF_PI), 0);
}

#[test]
fn sine_is_periodic_and_bounded() {
    let samples = [0i64, 1, 12345, 65536, 102944, 205888, 300000, 411775];
    for &a in samples.iter() {
        assert_eq!(sin_fx(a + FX_TAU), sin_fx(a));
        assert_eq!(sin_fx(a - FX_TAU), sin_fx(a));
        assert!(sin_fx(a) >= -FX_ONE && sin_fx(a) <= FX_ONE);
        assert!(cos_fx(a) >= -FX_ONE && cos_fx(a) <= FX_ONE);
    }
}

#[test]
fn angle_reduction_is_euclidean() {
    assert_eq!(fx_mod_tau(0), 0);
    assert_eq!(fx_mod_tau(FX_TAU), 0);
    assert_eq!(fx_mod_tau(FX_TAU + 7), 7);
    assert_eq!(fx_mod_tau(-1), FX_TAU - 1);
    assert_eq!(fx_mod_tau(-FX_TAU), 0);
}

#[test]
fn matrix_identity_multiplication() {
    let t = Mat4::from_translation(Vec3 { x: 131072, y: 0, z: -262144 });
    let id = Mat4::identity();
    assert_eq!(t.mul(&id), t);
    assert_eq!(id.mul(&t), t);
}

#[test]
fn rotation_matrix_at_half_turn() {
    let r = Mat4::from_angle_y(FX_PI);
    assert_eq!(r.m00, -FX_ONE);
    assert_eq!(r.m02, 0);
    assert_eq!(r.m11, FX_ONE);
    assert_eq!(r.m20, 0);
    assert_eq!(r.m22, -FX_ONE);
    assert_eq!(r.m33, FX_ONE);
}

#[test]
fn lerp_stays_in_hull() {
    let a = Vec3 { x: 6554, y: 32768, z: 6554 };
    let b = Vec3 { x: 39322, y: 52429, z: 19661 };
    for t in [0i64, 1, 16384, 32768, 65535, 65536] {
        let r = orbit_scene::mat::vec3_lerp(a, b, t);
        assert!(a.x.min(b.x) <= r.x && r.x <= a.x.max(b.x));
        assert!(a.y.min(b.y) <= r.y && r.y <= a.y.max(b.y));
        assert!(a.z.min(b.z) <= r.z && r.z <= a.z.max(b.z));
    }
    // exact midpoint of the x channel: 6554 + (32768 * 32768) / 65536
    let mid = orbit_scene::mat::vec3_lerp(a, b, 32768);
    assert_eq!(mid.x, 6554 + 16384);
    // endpoints are exact
    assert_eq!(orbit_scene::mat::vec3_lerp(a, b, 0), a);
    assert_eq!(orbit_scene::mat::vec3_lerp(a, b, FX_ONE), b);
}

#[test]
fn axis_normalization_is_exact_on_axis_multiples() {
    let u = orbit_scene::mat::normalize_axis(Vec3 { x: 0, y: 2 * FX_ONE, z: 0 });
    assert_eq!(u, Vec3 { x: 0, y: FX_ONE, z: 0 });
    let v = orbit_scene::mat::normalize_axis(Vec3 { x: -3 * FX_ONE, y: 0, z: 0 });
    assert_eq!(v, Vec3 { x: -FX_ONE, y: 0, z: 0 });
    // the defensive default for a zero axis
    let w = orbit_scene::mat::normalize_axis(Vec3 { x: 0, y: 0, z: 0 });
    assert_eq!(w, Vec3 { x: 0, y: FX_ONE, z: 0 });
}
