//! The scene: an ordered list of entities, built once, drawn in order.
//!
//! Beside explicit entities, the scene can take a scatter batch: each
//! placement becomes a crossed pair of textured quads at the same spot
//! and scale, the second rotated a quarter turn further, so two flat
//! quads read as one volumetric clump.
use vstd::prelude::*;

use crate::camera::apply_input_spec;
use crate::camera::camera_wf;
use crate::camera::limits_valid;
use crate::camera::proj_spec;
use crate::camera::view_spec;
use crate::camera::Camera;
use crate::camera::CameraLimits;
use crate::fx::FX_LIMIT;
use crate::fx::FX_ONE;
use crate::input::compute_deltas;
use crate::input::deltas_spec;
use crate::input::KeyInput;
use crate::input::DT_LIMIT;
use crate::mat::mat_mul_spec;
use crate::mat::rot_y_spec;
use crate::mat::scale_spec;
use crate::mat::translation_spec;
use crate::mat::Mat4;
use crate::mat::Vec3;
use crate::mesh::Mesh;
use crate::scatter::generate_placements;
use crate::scatter::placement_spec;
use crate::scatter::scatter_valid;
use crate::scatter::Placement;
use crate::scatter::ScatterConfig;
use crate::scene_object::draw_call_spec;
use crate::scene_object::object_wf;
use crate::scene_object::DrawCall;
use crate::scene_object::SceneObject;
use crate::scene_object::TIME_LIMIT;
use crate::textures::Texture;
use crate::trig::FX_HALF_PI;
use crate::ConfigurationError;

verus! {

/// An ordered sequence of entities; the order is the draw order.
pub struct Scene {
    pub objects: Vec<SceneObject>,
}

pub open spec fn scene_wf(s: Scene) -> bool {
    forall|i: int| 0 <= i < s.objects@.len() ==> object_wf(#[trigger] s.objects@[i])
}

/// The base transform of one scatter quad: translate to the placement,
/// rotate about `+y` by `angle`, then scale.
pub open spec fn flower_model_spec(p: Placement, angle: int) -> Mat4 {
    mat_mul_spec(
        mat_mul_spec(translation_spec(Vec3 { x: p.x, y: 0, z: p.z }), rot_y_spec(angle)),
        scale_spec(p.scale as int),
    )
}

/// Whether an entity is one scatter quad of a placement: its base
/// transform is the placement's, it is textured with alpha cutout, white,
/// and not animated.
pub open spec fn is_flower_entity(
    o: SceneObject,
    p: Placement,
    angle: int,
    mesh: Mesh,
    texture: Texture,
) -> bool {
    &&& o.base_model == flower_model_spec(p, angle)
    &&& o.mesh == mesh
    &&& o.texture == Some(texture)
    &&& o.use_texture
    &&& o.alpha_cutout
    &&& !o.animate_rotation
    &&& !o.animate_color
    &&& !o.is_ground
    &&& o.base_color1 == (Vec3 { x: FX_ONE, y: FX_ONE, z: FX_ONE })
    &&& o.base_color2 == (Vec3 { x: FX_ONE, y: FX_ONE, z: FX_ONE })
}

impl Scene {
    /// An empty scene.
    pub fn new() -> (r: Scene)
        ensures
            r.objects@.len() == 0,
            scene_wf(r),
    {
        Scene { objects: Vec::new() }
    }

    /// Append one entity; draw order is append order.
    pub fn add(&mut self, o: SceneObject)
        requires
            scene_wf(*old(self)),
            object_wf(o),
        ensures
            final(self).objects@ == old(self).objects@.push(o),
            scene_wf(*final(self)),
    {
        self.objects.push(o);
    }

    /// Append the scatter batch: for each placement of the
    /// configuration, two textured quads at the same spot and scale,
    /// the second rotated exactly a quarter turn further.
    pub fn scatter_flowers(
        &mut self,
        cfg: &ScatterConfig,
        mesh: Mesh,
        texture: Texture,
    )
        requires
            scene_wf(*old(self)),
            scatter_valid(*cfg),
        ensures
            final(self).objects@.len() == old(self).objects@.len() + 2 * cfg.count,
            forall|i: int|
                0 <= i < old(self).objects@.len() ==> final(self).objects@[i] == old(
                    self,
                ).objects@[i],
            forall|k: int|
                #![trigger placement_spec(*cfg, k)]
                0 <= k < cfg.count ==> {
                    let p = placement_spec(*cfg, k);
                    &&& is_flower_entity(
                        final(self).objects@[old(self).objects@.len() + 2 * k],
                        p,
                        p.rotation as int,
                        mesh,
                        texture,
                    )
                    &&& is_flower_entity(
                        final(self).objects@[old(self).objects@.len() + 2 * k + 1],
                        p,
                        p.rotation as int + FX_HALF_PI as int,
                        mesh,
                        texture,
                    )
                },
            scene_wf(*final(self)),
    {
        let placements = generate_placements(cfg);
        let white = Vec3 { x: FX_ONE, y: FX_ONE, z: FX_ONE };
        let base_len: Ghost<int> = Ghost(self.objects@.len() as int);
        let mut k: usize = 0;
        while k < placements.len()
            invariant
                scatter_valid(*cfg),
                white == (Vec3 { x: FX_ONE, y: FX_ONE, z: FX_ONE }),
                placements@.len() == cfg.count,
                forall|j: int|
                    0 <= j < cfg.count ==> #[trigger] placements@[j] == placement_spec(*cfg, j)
                        && crate::scatter::placement_in_range(*cfg, placements@[j]),
                k <= cfg.count,
                self.objects@.len() == base_len@ + 2 * k,
                0 <= base_len@,
                forall|i: int| 0 <= i < base_len@ + 2 * k ==> object_wf(#[trigger] self.objects@[i]),
                forall|i: int| 0 <= i < base_len@ ==> self.objects@[i] == old(self).objects@[i],
                old(self).objects@.len() == base_len@,
                forall|j: int|
                    #![trigger placement_spec(*cfg, j)]
                    0 <= j < k ==> {
                        let p = placement_spec(*cfg, j);
                        &&& is_flower_entity(
                            self.objects@[base_len@ + 2 * j],
                            p,
                            p.rotation as int,
                            mesh,
                            texture,
                        )
                        &&& is_flower_entity(
                            self.objects@[base_len@ + 2 * j + 1],
                            p,
                            p.rotation as int + FX_HALF_PI as int,
                            mesh,
                            texture,
                        )
                    },
            decreases placements@.len() - k,
        {
            let p = placements[k];
            proof {
                assert(placements@[k as int] == placement_spec(*cfg, k as int));
                assert(crate::scatter::placement_in_range(*cfg, placements@[k as int]));
            }
            let translate = Mat4::from_translation(Vec3 { x: p.x, y: 0, z: p.z });
            let rot1 = Mat4::from_angle_y(p.rotation);
            let rot2 = Mat4::from_angle_y(p.rotation + FX_HALF_PI);
            let scale = Mat4::from_scale(p.scale);
            proof {
                lemma_flower_model_bounded(*cfg, placements@[k as int], p.rotation as int);
                lemma_flower_model_bounded(
                    *cfg,
                    placements@[k as int],
                    p.rotation as int + FX_HALF_PI as int,
                );
            }
            let model1 = translate.mul(&rot1).mul(&scale);
            let model2 = translate.mul(&rot2).mul(&scale);
            let quad1 = SceneObject::new(mesh, model1, white, white).with_texture(texture, true);
            let quad2 = SceneObject::new(mesh, model2, white, white).with_texture(texture, true);
            self.objects.push(quad1);
            self.objects.push(quad2);
            k = k + 1;
        }
    }
}

/// Entries of a scatter quad's base transform stay within the base-model
/// cap: position, rotation, and scale factors are all small.
proof fn lemma_flower_model_bounded(cfg: ScatterConfig, p: Placement, angle: int)
    requires
        scatter_valid(cfg),
        crate::scatter::placement_in_range(cfg, p),
    ensures
        crate::mat::mat_bounded(
            mat_mul_spec(translation_spec(Vec3 { x: p.x, y: 0, z: p.z }), rot_y_spec(angle)),
            0x400_0000,
        ),
        crate::mat::mat_bounded(flower_model_spec(p, angle), crate::scene_object::MODEL_LIMIT as int),
{
    let t = translation_spec(Vec3 { x: p.x, y: 0, z: p.z });
    let r = rot_y_spec(angle);
    let s = scale_spec(p.scale as int);
    crate::trig::lemma_sin_bounds(angle);
    crate::trig::lemma_sin_bounds(angle + crate::trig::FX_HALF_PI as int);
    assert(crate::mat::mat_bounded(t, crate::scatter::SCATTER_POS_LIMIT as int));
    assert(crate::mat::mat_bounded(r, FX_ONE as int));
    crate::mat::lemma_mat_mul_bound(t, r, crate::scatter::SCATTER_POS_LIMIT as int, FX_ONE as int);
    let tr = mat_mul_spec(t, r);
    assert(crate::mat::mat_bounded(tr, 0x400_0000));
    assert(crate::mat::mat_bounded(s, crate::scatter::SCATTER_SCALE_LIMIT as int));
    crate::mat::lemma_mat_mul_bound(tr, s, 0x400_0000, crate::scatter::SCATTER_SCALE_LIMIT as int);
}

/// A scatter batch requested at build time: the generator's parameters
/// plus the mesh and texture every scatter quad uses.
#[derive(Clone, Copy, Debug, PartialEq, Eq, Structural)]
pub struct ScatterRequest {
    pub count: usize,
    pub x_min: i64,
    pub x_max: i64,
    pub z_min: i64,
    pub z_max: i64,
    pub scale_min: i64,
    pub scale_max: i64,
    pub seed: u64,
    pub mesh: Mesh,
    pub texture: Texture,
}

/// The generator configuration a scatter request asks for.
pub open spec fn scatter_request_config(q: ScatterRequest) -> ScatterConfig {
    ScatterConfig {
        count: q.count,
        x_min: q.x_min,
        x_max: q.x_max,
        z_min: q.z_min,
        z_max: q.z_max,
        scale_min: q.scale_min,
        scale_max: q.scale_max,
        seed: q.seed,
    }
}

/// Everything a scene is built from: explicit entities in draw order,
/// preceded by an optional scatter batch.
pub struct SceneConfig {
    pub entities: Vec<SceneObject>,
    pub scatter: Option<ScatterRequest>,
}

impl Scene {
    /// Build the whole scene from one configuration, all or nothing: an
    /// invalid scatter request aborts with its configuration error and
    /// no partially built scene; otherwise the scatter batch comes
    /// first, then the explicit entities, in their given order.
    pub fn build(config: SceneConfig) -> (r: Result<Scene, ConfigurationError>)
        requires
            forall|i: int|
                0 <= i < config.entities@.len() ==> object_wf(#[trigger] config.entities@[i]),
        ensures
            config.scatter is None ==> {
                &&& r is Ok
                &&& r->Ok_0.objects@ == config.entities@
            },
            config.scatter is Some ==> {
                let q = config.scatter->Some_0;
                let c = scatter_request_config(q);
                &&& (!(crate::scatter::region_valid(c) && q.count
                    <= crate::scatter::SCATTER_COUNT_LIMIT) ==> r == Err::<
                    Scene,
                    ConfigurationError,
                >(ConfigurationError::ScatterRegion))
                &&& (crate::scatter::region_valid(c) && q.count
                    <= crate::scatter::SCATTER_COUNT_LIMIT && !crate::scatter::scale_valid(c)
                    ==> r == Err::<Scene, ConfigurationError>(ConfigurationError::ScatterScale))
                &&& (scatter_valid(c) ==> {
                    &&& r is Ok
                    &&& r->Ok_0.objects@.len() == 2 * c.count + config.entities@.len()
                    &&& (forall|k: int|
                        #![trigger placement_spec(c, k)]
                        0 <= k < c.count ==> {
                            let p = placement_spec(c, k);
                            &&& is_flower_entity(
                                r->Ok_0.objects@[2 * k],
                                p,
                                p.rotation as int,
                                q.mesh,
                                q.texture,
                            )
                            &&& is_flower_entity(
                                r->Ok_0.objects@[2 * k + 1],
                                p,
                                p.rotation as int + FX_HALF_PI as int,
                                q.mesh,
                                q.texture,
                            )
                        })
                    &&& (forall|i: int|
                        0 <= i < config.entities@.len() ==> r->Ok_0.objects@[2 * c.count + i]
                            == #[trigger] config.entities@[i])
                })
            },
            r is Ok ==> scene_wf(r->Ok_0),
    {
        let mut scene = Scene::new();
        if let Some(q) = &config.scatter {
            let cfg = match ScatterConfig::new(
                q.count,
                q.x_min,
                q.x_max,
                q.z_min,
                q.z_max,
                q.scale_min,
                q.scale_max,
                q.seed,
            ) {
                Ok(c) => c,
                Err(e) => {
                    return Err(e);
                },
            };
            scene.scatter_flowers(&cfg, q.mesh, q.texture);
        }
        let flower_len: Ghost<int> = Ghost(scene.objects@.len() as int);
        proof {
            if config.scatter is Some {
                let q = config.scatter->Some_0;
                let c = scatter_request_config(q);
                if scatter_valid(c) {
                    assert(flower_len@ == 2 * c.count);
                }
            }
        }
        let mut i: usize = 0;
        while i < config.entities.len()
            invariant
                i <= config.entities@.len(),
                forall|j: int|
                    0 <= j < config.entities@.len() ==> object_wf(#[trigger] config.entities@[j]),
                scene.objects@.len() == flower_len@ + i,
                0 <= flower_len@,
                scene_wf(scene),
                config.scatter is None ==> flower_len@ == 0,
                config.scatter is Some ==> {
                    let q = config.scatter->Some_0;
                    let c = scatter_request_config(q);
                    scatter_valid(c) ==> {
                        &&& flower_len@ == 2 * c.count
                        &&& forall|k: int|
                            #![trigger placement_spec(c, k)]
                            0 <= k < c.count ==> {
                                let p = placement_spec(c, k);
                                &&& is_flower_entity(
                                    scene.objects@[2 * k],
                                    p,
                                    p.rotation as int,
                                    q.mesh,
                                    q.texture,
                                )
                                &&& is_flower_entity(
                                    scene.objects@[2 * k + 1],
                                    p,
                                    p.rotation as int + FX_HALF_PI as int,
                                    q.mesh,
                                    q.texture,
                                )
                            }
                    }
                },
                forall|j: int|
                    0 <= j < i ==> scene.objects@[flower_len@ + j] == #[trigger] config.entities@[j],
            decreases config.entities@.len() - i,
        {
            scene.add(config.entities[i]);
            i = i + 1;
        }
        proof {
            if config.scatter is None {
                assert(scene.objects@ =~= config.entities@);
            }
        }
        Ok(scene)
    }
}

/// Everything the library needs from the platform for one frame.
#[derive(Clone, Copy, Debug, PartialEq, Eq, Structural)]
pub struct FrameInput {
    /// Held camera keys.
    pub keys: KeyInput,
    /// Seconds since the previous frame, fixed point.
    pub dt: i64,
    /// Total elapsed time, fixed point.
    pub time: i64,
    /// Current framebuffer aspect ratio, fixed point; queried anew every
    /// frame so a resize takes effect immediately.
    pub aspect: i64,
}

/// One frame of the render loop's computation, in the mandated order:
/// apply the camera deltas, derive view and projection from the
/// post-input camera and the fresh aspect ratio, then lay out one draw
/// call per entity, in scene order.
pub fn render_frame(
    scene: &Scene,
    camera: &mut Camera,
    limits: &CameraLimits,
    input: FrameInput,
) -> (r: Result<Vec<DrawCall>, ConfigurationError>)
    requires
        scene_wf(*scene),
        camera_wf(*old(camera)),
        crate::fx::fx_abs(old(camera).phi as int) <= crate::camera::PHI_INPUT_LIMIT as int,
        limits_valid(*limits),
        0 <= input.dt <= DT_LIMIT,
        -TIME_LIMIT <= input.time <= TIME_LIMIT,
        -FX_LIMIT <= input.aspect <= FX_LIMIT,
    ensures
        *final(camera) == apply_input_spec(
            *old(camera),
            deltas_spec(input.keys, input.dt as int),
            *limits,
        ),
        camera_wf(*final(camera)),
        input.aspect <= 0 ==> r == Err::<Vec<DrawCall>, ConfigurationError>(
            ConfigurationError::Aspect,
        ),
        input.aspect > 0 ==> {
            &&& r is Ok
            &&& r->Ok_0@.len() == scene.objects@.len()
            &&& forall|i: int|
                0 <= i < scene.objects@.len() ==> r->Ok_0@[i] == draw_call_spec(
                    #[trigger] scene.objects@[i],
                    input.time as int,
                    view_spec(*final(camera)),
                    proj_spec(input.aspect as int),
                )
        },
{
    let d = compute_deltas(input.keys, input.dt);
    camera.apply_input(d, limits);
    let proj = match camera.proj_matrix(input.aspect) {
        Ok(m) => m,
        Err(e) => {
            return Err(e);
        },
    };
    let view = camera.view_matrix();
    let mut plan: Vec<DrawCall> = Vec::new();
    let mut i: usize = 0;
    while i < scene.objects.len()
        invariant
            scene_wf(*scene),
            i <= scene.objects@.len(),
            plan@.len() == i,
            -TIME_LIMIT <= input.time <= TIME_LIMIT,
            view == view_spec(*camera),
            proj == proj_spec(input.aspect as int),
            camera_wf(*camera),
            forall|j: int|
                0 <= j < i ==> plan@[j] == draw_call_spec(
                    #[trigger] scene.objects@[j],
                    input.time as int,
                    view_spec(*camera),
                    proj_spec(input.aspect as int),
                ),
        decreases scene.objects@.len() - i,
    {
        let call = scene.objects[i].draw(input.time, &view, &proj);
        plan.push(call);
        i = i + 1;
    }
    Ok(plan)
}

} // verus!
