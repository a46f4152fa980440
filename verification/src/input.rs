//! Keyboard state to camera deltas.
//!
//! The window layer polls raw key state; the library turns the pressed
//! keys and the elapsed frame time into signed spherical deltas and steps
//! the camera, clamping the polar angle and the radius as the camera
//! invariant demands; the azimuth accumulates.
use vstd::prelude::*;

use crate::camera::apply_input_spec;
use crate::camera::camera_wf;
use crate::camera::delta_wf;
use crate::camera::limits_valid;
use crate::camera::Camera;
use crate::camera::CameraDelta;
use crate::camera::CameraLimits;
use crate::fx::fx_mul;
use crate::fx::fx_mul_spec;
use crate::fx::lemma_fx_mul_bound;

verus! {

/// Angular speed of the tilt and orbit keys, fixed point (1.5 rad/s).
pub const ROT_SPEED: i64 = 98304;

/// Radial speed of the zoom keys, fixed point (10.0 units/s).
pub const ZOOM_SPEED: i64 = 655360;

/// Longest frame time accepted by the input step (256 s, fixed point).
pub const DT_LIMIT: i64 = 0x100_0000;

/// Which of the six camera keys are held this frame.
#[derive(Clone, Copy, Debug, PartialEq, Eq, Structural)]
pub struct KeyInput {
    /// Tilt toward the top pole (polar angle decreases).
    pub tilt_up: bool,
    /// Tilt toward the bottom pole (polar angle increases).
    pub tilt_down: bool,
    /// Orbit one way around the scene (azimuth decreases).
    pub orbit_left: bool,
    /// Orbit the other way (azimuth increases).
    pub orbit_right: bool,
    /// Move toward the origin (radius decreases).
    pub zoom_in: bool,
    /// Move away from the origin (radius increases).
    pub zoom_out: bool,
}

/// The deltas one frame of key state produces: speed times elapsed time,
/// with opposite keys cancelling.
pub open spec fn deltas_spec(k: KeyInput, dt: int) -> CameraDelta {
    let rot = fx_mul_spec(ROT_SPEED as int, dt);
    let zoom = fx_mul_spec(ZOOM_SPEED as int, dt);
    CameraDelta {
        d_theta: ((if k.tilt_down {
            rot
        } else {
            0
        }) - (if k.tilt_up {
            rot
        } else {
            0
        })) as i64,
        d_phi: ((if k.orbit_right {
            rot
        } else {
            0
        }) - (if k.orbit_left {
            rot
        } else {
            0
        })) as i64,
        d_radius: ((if k.zoom_out {
            zoom
        } else {
            0
        }) - (if k.zoom_in {
            zoom
        } else {
            0
        })) as i64,
    }
}

/// Turn held keys and elapsed time into camera deltas.
pub fn compute_deltas(k: KeyInput, dt: i64) -> (r: CameraDelta)
    requires
        0 <= dt <= DT_LIMIT,
    ensures
        r == deltas_spec(k, dt as int),
        delta_wf(r),
{
    proof {
        lemma_fx_mul_bound(ROT_SPEED as int, dt as int, ROT_SPEED as int, DT_LIMIT as int);
        lemma_fx_mul_bound(ZOOM_SPEED as int, dt as int, ZOOM_SPEED as int, DT_LIMIT as int);
    }
    let rot = fx_mul(ROT_SPEED, dt);
    let zoom = fx_mul(ZOOM_SPEED, dt);
    let d_theta = (if k.tilt_down {
        rot
    } else {
        0
    }) - (if k.tilt_up {
        rot
    } else {
        0
    });
    let d_phi = (if k.orbit_right {
        rot
    } else {
        0
    }) - (if k.orbit_left {
        rot
    } else {
        0
    });
    let d_radius = (if k.zoom_out {
        zoom
    } else {
        0
    }) - (if k.zoom_in {
        zoom
    } else {
        0
    });
    CameraDelta { d_theta, d_phi, d_radius }
}

/// One frame of keyboard input applied to the camera: compute the deltas,
/// step, and clamp. The azimuth accumulates; the caller keeps it under
/// `PHI_INPUT_LIMIT` (one delta of headroom below the machine cap),
/// canonicalizing when it drifts that far.
pub fn process_input(k: KeyInput, dt: i64, camera: &mut Camera, l: &CameraLimits)
    requires
        0 <= dt <= DT_LIMIT,
        camera_wf(*old(camera)),
        crate::fx::fx_abs(old(camera).phi as int) <= crate::camera::PHI_INPUT_LIMIT as int,
        limits_valid(*l),
    ensures
        *final(camera) == apply_input_spec(*old(camera), deltas_spec(k, dt as int), *l),
        camera_wf(*final(camera)),
{
    let d = compute_deltas(k, dt);
    camera.apply_input(d, l);
}

} // verus!
