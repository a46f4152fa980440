use orbit_scene::camera::{Camera, CameraDelta, CameraLimits};
use orbit_scene::fx::FX_ONE;
use orbit_scene::input::{compute_deltas, process_input, KeyInput};
use orbit_scene::mat::Vec3;
use orbit_scene::trig::{FX_HALF_PI, FX_PI};
use orbit_scene::ConfigurationError;

fn default_limits() -> CameraLimits {
    // radius in [3.0, 50.0], polar band 0.1
    CameraLimits::new(196608, 3276800, 6554).unwrap()
}

fn no_keys() -> KeyInput {
    KeyInput {
        tilt_up: false,
        tilt_down: false,
        orbit_left: false,
        orbit_right: false,
        zoom_in: false,
        zoom_out: false,
    }
}

#[test]
fn camera_limits_reject_bad_bounds() {
    assert_eq!(
        CameraLimits::new(3276800, 196608, 6554),
        Err(ConfigurationError::CameraBounds)
    );
    assert_eq!(
        CameraLimits::new(196608, 196608, 6554),
        Err(ConfigurationError::CameraBounds)
    );
    assert_eq!(
        CameraLimits::new(196608, 3276800, 0),
        Err(ConfigurationError::CameraEpsilon)
    );
    assert_eq!(
        CameraLimits::new(196608, 3276800, FX_PI),
        Err(ConfigurationError::CameraEpsilon)
    );
    assert!(CameraLimits::new(196608, 3276800, 6554).is_ok());
}

#[test]
fn polar_angle_is_clamped_from_both_sides() {
    let l = default_limits();
    // far below the band
    let mut cam = Camera::new(786432, -FX_PI, 0);
    cam.apply_input(CameraDelta { d_theta: 0, d_phi: 0, d_radius: 0 }, &l);
    assert_eq!(cam.theta, l.epsilon);
    // far above the band
    let mut cam = Camera::new(786432, 2 * FX_PI, 0);
    cam.apply_input(CameraDelta { d_theta: 0, d_phi: 0, d_radius: 0 }, &l);
    assert_eq!(cam.theta, FX_PI - l.epsilon);
    // a delta that overshoots is clamped too
    let mut cam = Camera::new(786432, FX_HALF_PI, 0);
    cam.apply_input(CameraDelta { d_theta: FX_PI, d_phi: 0, d_radius: 0 }, &l);
    assert_eq!(cam.theta, FX_PI - l.epsilon);
}

#[test]
fn radius_is_clamped_from_both_sides() {
    let l = default_limits();
    let mut cam = Camera::new(0, FX_HALF_PI, 0);
    cam.apply_input(CameraDelta { d_theta: 0, d_phi: 0, d_radius: 0 }, &l);
    assert_eq!(cam.radius, l.min_radius);
    let mut cam = Camera::new(3276800, FX_HALF_PI, 0);
    cam.apply_input(CameraDelta { d_theta: 0, d_phi: 0, d_radius: 655360 }, &l);
    assert_eq!(cam.radius, l.max_radius);
}

#[test]
fn clamping_is_idempotent() {
    let l = default_limits();
    let mut cam = Camera::new(0, -FX_PI, 123456);
    cam.apply_input(
        CameraDelta { d_theta: -777, d_phi: 999, d_radius: -100000 },
        &l,
    );
    let once = cam;
    cam.apply_input(CameraDelta { d_theta: 0, d_phi: 0, d_radius: 0 }, &l);
    assert_eq!(cam, once);
}

#[test]
fn eye_sits_on_x_axis_at_equator() {
    let r = 786432; // 12.0
    let cam = Camera::new(r, FX_HALF_PI, 0);
    let eye = cam.eye_position();
    assert_eq!(eye, Vec3 { x: r, y: 0, z: 0 });
}

#[test]
fn view_matrix_moves_the_eye_to_depth_minus_radius() {
    let r = 786432;
    let cam = Camera::new(r, FX_HALF_PI, 0);
    let v = cam.view_matrix();
    // right = +z, up = +y, backward = +x for this pose
    assert_eq!(v.m00, 0);
    assert_eq!(v.m02, -FX_ONE);
    assert_eq!(v.m11, FX_ONE);
    assert_eq!(v.m20, FX_ONE);
    assert_eq!(v.m22, 0);
    // the eye maps to (0, 0, -radius)
    assert_eq!(v.m03, 0);
    assert_eq!(v.m13, 0);
    assert_eq!(v.m23, -r);
}

#[test]
fn projection_rejects_only_nonpositive_aspect() {
    let cam = Camera::new(786432, FX_HALF_PI, 0);
    assert_eq!(cam.proj_matrix(0), Err(ConfigurationError::Aspect));
    assert_eq!(cam.proj_matrix(-FX_ONE), Err(ConfigurationError::Aspect));
    let p = cam.proj_matrix(FX_ONE).unwrap();
    assert_eq!(p.m00, 158218);
    assert_eq!(p.m11, 158218);
    assert_eq!(p.m22, -65667);
    assert_eq!(p.m23, -13120);
    assert_eq!(p.m32, -FX_ONE);
    assert_eq!(p.m33, 0);
    // a wider frame shrinks the horizontal focal entry
    let wide = cam.proj_matrix(2 * FX_ONE).unwrap();
    assert_eq!(wide.m00, 158218 / 2);
}

#[test]
fn key_deltas_scale_with_elapsed_time() {
    let mut k = no_keys();
    k.tilt_down = true;
    let d = compute_deltas(k, FX_ONE);
    assert_eq!(d, CameraDelta { d_theta: 98304, d_phi: 0, d_radius: 0 });
    let mut k = no_keys();
    k.zoom_out = true;
    let d = compute_deltas(k, 32768);
    assert_eq!(d, CameraDelta { d_theta: 0, d_phi: 0, d_radius: 327680 });
}

#[test]
fn opposite_keys_cancel() {
    let mut k = no_keys();
    k.tilt_up = true;
    k.tilt_down = true;
    k.orbit_left = true;
    k.orbit_right = true;
    k.zoom_in = true;
    k.zoom_out = true;
    let d = compute_deltas(k, FX_ONE);
    assert_eq!(d, CameraDelta { d_theta: 0, d_phi: 0, d_radius: 0 });
}

#[test]
fn process_input_steps_and_clamps() {
    let l = default_limits();
    let mut cam = Camera::new(786432, 32768, 52429);
    let mut k = no_keys();
    k.tilt_up = true;
    // a long tilt drives the polar angle to the lower clamp
    process_input(k, FX_ONE, &mut cam, &l);
    assert_eq!(cam.theta, l.epsilon);
    assert_eq!(cam.radius, 786432);
    assert_eq!(cam.phi, 52429);
}

#[test]
fn zero_deltas_leave_an_in_band_camera_unchanged() {
    // theta and radius in band, azimuth anywhere: a zero-delta step is a
    // no-op, whatever the stored azimuth
    let l = default_limits();
    for phi in [0i64, -65536, 52429, 3 * orbit_scene::trig::FX_TAU + 17] {
        let before = Camera::new(786432, FX_HALF_PI, phi);
        let mut cam = before;
        cam.apply_input(CameraDelta { d_theta: 0, d_phi: 0, d_radius: 0 }, &l);
        assert_eq!(cam, before);
    }
}

#[test]
fn azimuth_accumulates_without_clamp() {
    let l = default_limits();
    let mut cam = Camera::new(786432, FX_HALF_PI, -65536);
    // orbiting for one second at 1.5 rad/s adds exactly the delta
    let mut k = no_keys();
    k.orbit_right = true;
    process_input(k, FX_ONE, &mut cam, &l);
    assert_eq!(cam.phi, -65536 + 98304);
    // past a full turn the stored azimuth keeps growing, unreduced
    let mut cam = Camera::new(786432, FX_HALF_PI, orbit_scene::trig::FX_TAU - 100);
    process_input(k, FX_ONE, &mut cam, &l);
    assert_eq!(cam.phi, orbit_scene::trig::FX_TAU - 100 + 98304);
}

#[test]
fn azimuth_canonicalization_is_separate_and_invisible() {
    // the same pose expressed with a raw and with a reduced azimuth
    let raw = Camera::new(786432, FX_HALF_PI, -65536);
    let reduced = Camera::new(786432, FX_HALF_PI, orbit_scene::trig::FX_TAU - 65536);
    assert_eq!(raw.view_matrix(), reduced.view_matrix());
    assert_eq!(raw.eye_position(), reduced.eye_position());
    // canonicalizing folds the stored azimuth into one turn and changes
    // nothing the renderer can see
    let mut cam = raw;
    cam.canonicalize_azimuth();
    assert_eq!(cam.phi, orbit_scene::trig::FX_TAU - 65536);
    assert_eq!(cam.theta, raw.theta);
    assert_eq!(cam.radius, raw.radius);
    assert_eq!(cam.view_matrix(), raw.view_matrix());
    assert_eq!(cam.eye_position(), raw.eye_position());
}
