use orbit_scene::camera::{Camera, CameraLimits};
use orbit_scene::fx::FX_ONE;
use orbit_scene::input::KeyInput;
use orbit_scene::mat::{Mat4, Vec3};
use orbit_scene::mesh::{build_interleaved, check_model_count, AssetLoadError, Mesh};
use orbit_scene::scatter::ScatterConfig;
use orbit_scene::scene::{render_frame, FrameInput, Scene};
use orbit_scene::scene_object::SceneObject;
use orbit_scene::textures::Texture;
use orbit_scene::scene::{ScatterRequest, SceneConfig};
use orbit_scene::trig::{FX_HALF_PI, FX_PI, FX_TAU};
use orbit_scene::ConfigurationError;

fn quad_mesh() -> Mesh {
    Mesh { vao: 1, vbo: 2, vertex_count: 6 }
}

fn white() -> Vec3 {
    Vec3 { x: FX_ONE, y: FX_ONE, z: FX_ONE }
}

#[test]
fn rotation_animation_is_periodic() {
    let base = Mat4::from_translation(Vec3 { x: -65536, y: 0, z: 131072 });
    let rock = SceneObject::new(quad_mesh(), base, white(), white())
        .with_rotation(Vec3 { x: 0, y: FX_ONE, z: 0 }, FX_ONE);
    // at unit speed the period is exactly one turn of fixed-point radians
    for t in [0i64, 1, 12345, 65536, 205888] {
        let a = rock.compute_frame(t);
        let b = rock.compute_frame(t + FX_TAU);
        assert_eq!(a.model, b.model);
    }
}

#[test]
fn spin_reaches_half_turn_at_time_pi() {
    let base = Mat4::from_translation(Vec3 { x: 131072, y: 0, z: -262144 });
    let rock = SceneObject::new(quad_mesh(), base, white(), white())
        .with_rotation(Vec3 { x: 0, y: FX_ONE, z: 0 }, FX_ONE);
    // at t = 0 the model is the base transform unchanged
    assert_eq!(rock.compute_frame(0).model, base);
    // at t = pi it is the base composed with an exact half turn about y
    let expected = base.mul(&Mat4::from_angle_y(FX_PI));
    assert_eq!(rock.compute_frame(FX_PI).model, expected);
    assert_eq!(expected.m00, -FX_ONE);
    assert_eq!(expected.m22, -FX_ONE);
    // the rotation is appended after the base model: the translation
    // column stays, so the object spins in place instead of orbiting
    assert_eq!(expected.m03, 131072);
    assert_eq!(expected.m23, -262144);
}

#[test]
fn ground_entity_never_moves() {
    let base = Mat4::from_scale(FX_ONE);
    let ground = SceneObject::new(
        quad_mesh(),
        base,
        Vec3 { x: 39322, y: 39322, z: 39322 },
        Vec3 { x: 52429, y: 52429, z: 52429 },
    )
    .with_ground(true);
    for t in [0i64, 1000, FX_PI, 10 * FX_TAU] {
        assert_eq!(ground.compute_frame(t).model, base);
    }
    let call = ground.draw(FX_PI, &Mat4::identity(), &Mat4::identity());
    assert!(call.is_ground);
}

#[test]
fn color_animation_stays_in_hull_and_hits_midpoint() {
    let c1 = Vec3 { x: 6554, y: 32768, z: 6554 };
    let c2 = Vec3 { x: 39322, y: 52429, z: 19661 };
    let tree = SceneObject::new(quad_mesh(), Mat4::identity(), c1, c2).with_color_animation(FX_ONE);
    for t in [0i64, 7, 1000, 32768, 65536, 102944, 205888, 411776] {
        let f = tree.compute_frame(t);
        for (v1, v2) in [(f.color1, f.color2), (f.color2, f.color1)] {
            assert!(c1.x.min(c2.x) <= v1.x && v1.x <= c1.x.max(c2.x));
            assert!(c1.y.min(c2.y) <= v1.y && v1.y <= c1.y.max(c2.y));
            assert!(c1.z.min(c2.z) <= v1.z && v1.z <= c1.z.max(c2.z));
            assert!(c1.x.min(c2.x) <= v2.x && v2.x <= c1.x.max(c2.x));
        }
    }
    // at t = 0 the wave is zero, the blend is exactly one half
    let f = tree.compute_frame(0);
    assert_eq!(f.color1, Vec3 { x: 6554 + 16384, y: 32768 + 9830, z: 6554 + 6553 });
    assert_eq!(f.color2, Vec3 { x: 39322 - 16384, y: 52429 - 9830, z: 19661 - 6553 });
}

#[test]
fn static_colors_pass_through() {
    let c1 = Vec3 { x: 111, y: 222, z: 333 };
    let c2 = Vec3 { x: 444, y: 555, z: 666 };
    let o = SceneObject::new(quad_mesh(), Mat4::identity(), c1, c2);
    let f = o.compute_frame(98765);
    assert_eq!(f.color1, c1);
    assert_eq!(f.color2, c2);
}

#[test]
fn texture_flags_follow_the_binding() {
    let id = Mat4::identity();
    let tex = Texture { id: 7 };
    let with_tex = SceneObject::new(quad_mesh(), id, white(), white()).with_texture(tex, true);
    let call = with_tex.draw(0, &id, &id);
    assert!(call.use_texture);
    assert!(call.alpha_cutout);
    assert_eq!(call.texture, Some(tex));
    // no texture was ever bound: both flags stay off
    let bare = SceneObject::new(quad_mesh(), id, white(), white());
    let call = bare.draw(0, &id, &id);
    assert!(!call.use_texture);
    assert!(!call.alpha_cutout);
    assert_eq!(call.texture, None);
}

#[test]
fn detached_texture_forces_flags_off() {
    let id = Mat4::identity();
    let mut o = SceneObject::new(quad_mesh(), id, white(), white()).with_texture(Texture { id: 9 }, true);
    // detach the texture but leave the stored flags set
    o.texture = None;
    assert!(o.use_texture);
    assert!(o.alpha_cutout);
    let call = o.draw(12345, &id, &id);
    assert!(!call.use_texture);
    assert!(!call.alpha_cutout);
    assert_eq!(call.texture, None);
}

#[test]
fn scatter_config_validation() {
    // empty rectangle
    assert_eq!(
        ScatterConfig::new(10, 524288, -524288, -524288, 524288, 26214, 65536, 1),
        Err(ConfigurationError::ScatterRegion)
    );
    // empty scale range
    assert_eq!(
        ScatterConfig::new(10, -524288, 524288, -524288, 524288, 65536, 26214, 1),
        Err(ConfigurationError::ScatterScale)
    );
    let ok = ScatterConfig::new(10, -524288, 524288, -524288, 524288, 26214, 65536, 1);
    assert!(ok.is_ok());
    assert_eq!(ok.unwrap().count, 10);
}

#[test]
fn scatter_is_reproducible_for_a_fixed_seed() {
    let cfg = ScatterConfig::with_defaults(42);
    let a = orbit_scene::scatter::generate_placements(&cfg);
    let b = orbit_scene::scatter::generate_placements(&cfg);
    assert_eq!(a.len(), 120);
    assert_eq!(a, b);
}

#[test]
fn scatter_depends_on_the_seed() {
    let a = orbit_scene::scatter::generate_placements(&ScatterConfig::with_defaults(1));
    let b = orbit_scene::scatter::generate_placements(&ScatterConfig::with_defaults(2));
    assert_ne!(a, b);
}

#[test]
fn scatter_placements_stay_in_range() {
    let cfg = ScatterConfig::with_defaults(7);
    for p in orbit_scene::scatter::generate_placements(&cfg) {
        assert!(cfg.x_min <= p.x && p.x < cfg.x_max);
        assert!(cfg.z_min <= p.z && p.z < cfg.z_max);
        assert!(cfg.scale_min <= p.scale && p.scale < cfg.scale_max);
        assert!(0 <= p.rotation && p.rotation < FX_TAU);
    }
}

#[test]
fn scatter_pairs_are_crossed_quads() {
    let cfg = ScatterConfig::with_defaults(42);
    let placements = orbit_scene::scatter::generate_placements(&cfg);
    let mut scene = Scene::new();
    let mesh = quad_mesh();
    let tex = Texture { id: 3 };
    scene.scatter_flowers(&cfg, mesh, tex);
    assert_eq!(scene.objects.len(), 240);
    for (k, p) in placements.iter().enumerate() {
        let first = &scene.objects[2 * k];
        let second = &scene.objects[2 * k + 1];
        let translate = Mat4::from_translation(Vec3 { x: p.x, y: 0, z: p.z });
        let scale = Mat4::from_scale(p.scale);
        // same spot and scale; the second quad's rotation is exactly a
        // quarter turn past the first's
        let expect1 = translate.mul(&Mat4::from_angle_y(p.rotation)).mul(&scale);
        let expect2 = translate
            .mul(&Mat4::from_angle_y(p.rotation + FX_HALF_PI))
            .mul(&scale);
        assert_eq!(first.base_model, expect1);
        assert_eq!(second.base_model, expect2);
        assert_eq!(first.texture, Some(tex));
        assert_eq!(second.texture, Some(tex));
        assert!(first.alpha_cutout && second.alpha_cutout);
        assert!(!first.animate_rotation && !first.animate_color);
    }
}

#[test]
fn render_frame_plans_one_call_per_entity_in_order() {
    let limits = CameraLimits::new(196608, 3276800, 6554).unwrap();
    let mut camera = Camera::new(786432, FX_HALF_PI, 0);
    let mut scene = Scene::new();
    let ground = SceneObject::new(Mesh { vao: 10, vbo: 11, vertex_count: 6 }, Mat4::from_scale(FX_ONE), white(), white())
        .with_ground(true);
    let rock = SceneObject::new(Mesh { vao: 20, vbo: 21, vertex_count: 9 }, Mat4::identity(), white(), white())
        .with_rotation(Vec3 { x: 0, y: FX_ONE, z: 0 }, FX_ONE);
    scene.add(ground);
    scene.add(rock);
    let keys = KeyInput {
        tilt_up: false,
        tilt_down: false,
        orbit_left: false,
        orbit_right: false,
        zoom_in: false,
        zoom_out: false,
    };
    let input = FrameInput { keys, dt: 0, time: FX_PI, aspect: FX_ONE };
    let plan = render_frame(&scene, &mut camera, &limits, input).unwrap();
    assert_eq!(plan.len(), 2);
    // scene order is draw order
    assert_eq!(plan[0].mesh.vao, 10);
    assert_eq!(plan[1].mesh.vao, 20);
    // matrices come from the post-input camera and the fresh aspect
    assert_eq!(plan[0].view, camera.view_matrix());
    assert_eq!(plan[0].proj, camera.proj_matrix(FX_ONE).unwrap());
    assert_eq!(plan[1].view, plan[0].view);
    // the ground keeps its base transform; the rock has turned half way
    assert_eq!(plan[0].model, Mat4::from_scale(FX_ONE));
    assert_eq!(plan[1].model, Mat4::identity().mul(&Mat4::from_angle_y(FX_PI)));
    assert!(plan[0].is_ground && !plan[1].is_ground);
}

#[test]
fn render_frame_rejects_nonpositive_aspect() {
    let limits = CameraLimits::new(196608, 3276800, 6554).unwrap();
    let mut camera = Camera::new(786432, FX_HALF_PI, 0);
    let scene = Scene::new();
    let keys = KeyInput {
        tilt_up: false,
        tilt_down: false,
        orbit_left: false,
        orbit_right: false,
        zoom_in: false,
        zoom_out: false,
    };
    let input = FrameInput { keys, dt: 0, time: 0, aspect: 0 };
    let r = render_frame(&scene, &mut camera, &limits, input);
    assert!(matches!(r, Err(ConfigurationError::Aspect)));
}

#[test]
fn interleave_lays_out_eight_words_per_vertex() {
    let indices: Vec<u32> = vec![1, 0];
    let positions: Vec<u32> = vec![10, 11, 12, 20, 21, 22];
    let normals: Vec<u32> = vec![];
    let texcoords: Vec<u32> = vec![];
    let out = build_interleaved(&indices, &positions, &normals, &texcoords).unwrap();
    assert_eq!(out.len(), 16);
    // first record: vertex 1's position, default normal, default texcoord
    assert_eq!(&out[0..3], &[20, 21, 22]);
    assert_eq!(&out[3..6], &[0, 0x3F80_0000u32, 0]);
    // the default normal word is the float 1.0 bit pattern
    assert_eq!(f32::from_bits(out[4]), 1.0f32);
    assert_eq!(&out[6..8], &[0, 0]);
    // second record: vertex 0
    assert_eq!(&out[8..11], &[10, 11, 12]);
}

#[test]
fn interleave_uses_supplied_normals_and_texcoords() {
    let indices: Vec<u32> = vec![0];
    let positions: Vec<u32> = vec![1, 2, 3];
    let normals: Vec<u32> = vec![4, 5, 6];
    let texcoords: Vec<u32> = vec![7, 8];
    let out = build_interleaved(&indices, &positions, &normals, &texcoords).unwrap();
    assert_eq!(out, vec![1, 2, 3, 4, 5, 6, 7, 8]);
}

#[test]
fn empty_model_lists_are_rejected() {
    assert_eq!(check_model_count(0), Err(AssetLoadError::NoModels));
    assert_eq!(check_model_count(1), Ok(()));
    assert_eq!(check_model_count(42), Ok(()));
}

#[test]
fn interleave_rejects_out_of_range_indices() {
    let indices: Vec<u32> = vec![5];
    let positions: Vec<u32> = vec![1, 2, 3];
    let r = build_interleaved(&indices, &positions, &vec![], &vec![]);
    assert_eq!(r, Err(AssetLoadError::IndexOutOfRange));
}

#[test]
fn scene_build_is_all_or_nothing() {
    // an empty scatter rectangle aborts the whole build
    let bad = SceneConfig {
        entities: vec![SceneObject::new(quad_mesh(), Mat4::identity(), white(), white())],
        scatter: Some(ScatterRequest {
            count: 5,
            x_min: 524288,
            x_max: -524288,
            z_min: -524288,
            z_max: 524288,
            scale_min: 26214,
            scale_max: 65536,
            seed: 1,
            mesh: quad_mesh(),
            texture: Texture { id: 4 },
        }),
    };
    assert!(matches!(
        Scene::build(bad),
        Err(ConfigurationError::ScatterRegion)
    ));
    // without a scatter batch the scene is exactly the entity list
    let ground = SceneObject::new(Mesh { vao: 10, vbo: 11, vertex_count: 6 }, Mat4::identity(), white(), white());
    let rock = SceneObject::new(Mesh { vao: 20, vbo: 21, vertex_count: 9 }, Mat4::identity(), white(), white());
    let scene = Scene::build(SceneConfig { entities: vec![ground, rock], scatter: None }).unwrap();
    assert_eq!(scene.objects.len(), 2);
    assert_eq!(scene.objects[0].mesh.vao, 10);
    assert_eq!(scene.objects[1].mesh.vao, 20);
}

#[test]
fn scene_build_places_scatter_before_entities() {
    let house = SceneObject::new(Mesh { vao: 30, vbo: 31, vertex_count: 12 }, Mat4::identity(), white(), white());
    let scene = Scene::build(SceneConfig {
        entities: vec![house],
        scatter: Some(ScatterRequest {
            count: 3,
            x_min: -524288,
            x_max: 524288,
            z_min: -524288,
            z_max: 524288,
            scale_min: 26214,
            scale_max: 65536,
            seed: 9,
            mesh: quad_mesh(),
            texture: Texture { id: 4 },
        }),
    })
    .unwrap();
    assert_eq!(scene.objects.len(), 7);
    for quad in &scene.objects[0..6] {
        assert_eq!(quad.texture, Some(Texture { id: 4 }));
        assert!(quad.alpha_cutout);
    }
    assert_eq!(scene.objects[6].mesh.vao, 30);
    // the batch matches a direct run of the generator with the same seed
    let cfg = orbit_scene::scatter::ScatterConfig::new(
        3, -524288, 524288, -524288, 524288, 26214, 65536, 9,
    )
    .unwrap();
    let placements = orbit_scene::scatter::generate_placements(&cfg);
    let p = placements[0];
    let expect = Mat4::from_translation(Vec3 { x: p.x, y: 0, z: p.z })
        .mul(&Mat4::from_angle_y(p.rotation))
        .mul(&Mat4::from_scale(p.scale));
    assert_eq!(scene.objects[0].base_model, expect);
}

#[test]
fn rotation_animation_is_periodic_backward() {
    let base = Mat4::from_translation(Vec3 { x: 65536, y: 0, z: 65536 });
    let rock = SceneObject::new(quad_mesh(), base, white(), white())
        .with_rotation(Vec3 { x: 0, y: FX_ONE, z: 0 }, -FX_ONE);
    for t in [0i64, 9999, 65536] {
        let a = rock.compute_frame(t);
        let b = rock.compute_frame(t + FX_TAU);
        assert_eq!(a.model, b.model);
    }
}

#[test]
fn rotation_axis_is_stored_verbatim_and_normalized_per_frame() {
    let base = Mat4::from_translation(Vec3 { x: 65536, y: 0, z: 0 });
    let double = SceneObject::new(quad_mesh(), base, white(), white())
        .with_rotation(Vec3 { x: 0, y: 2 * FX_ONE, z: 0 }, FX_ONE);
    // the configured axis passes through unchanged
    assert_eq!(double.rotation_axis, Vec3 { x: 0, y: 2 * FX_ONE, z: 0 });
    // the frame normalizes it: a scaled axis spins exactly like the unit one
    let unit = SceneObject::new(quad_mesh(), base, white(), white())
        .with_rotation(Vec3 { x: 0, y: FX_ONE, z: 0 }, FX_ONE);
    for t in [0i64, 1, 12345, FX_PI] {
        assert_eq!(double.compute_frame(t).model, unit.compute_frame(t).model);
    }
    // a zero axis falls back to +y
    let zero = SceneObject::new(quad_mesh(), base, white(), white())
        .with_rotation(Vec3 { x: 0, y: 0, z: 0 }, FX_ONE);
    assert_eq!(zero.rotation_axis, Vec3 { x: 0, y: 0, z: 0 });
    assert_eq!(zero.compute_frame(FX_PI).model, unit.compute_frame(FX_PI).model);
}
