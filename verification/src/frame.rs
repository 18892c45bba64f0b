//! The frame plan: everything the pipeline decides each frame — which
//! light gets the directional shadow pass, which point lights get cube
//! shadow passes and in which slots, the order of geometry draws, the
//! per-light uniform values, the bloom blur schedule, and the composite
//! bindings. The embedding executes the plan with its graphics API in
//! the fixed pass order: shadows, geometry, lighting, light spheres,
//! bloom extract, blur, composite.

use vstd::prelude::*;

use crate::render::{spec_blur_output_index, BlurSource, BlurStep, Renderer};
use crate::scene::{Entity, Light, LightType, Scene, MAX_RADIUS_MILLI};

verus! {

/// The view basis of one cube-shadow face: the offset the face looks
/// toward and its up vector, as exact unit axes.
#[derive(Clone, Copy, Debug, PartialEq, Eq, Structural)]
pub struct CubeFaceBasis {
    pub tx: i32,
    pub ty: i32,
    pub tz: i32,
    pub ux: i32,
    pub uy: i32,
    pub uz: i32,
}

/// The fixed face table of a point-light cube shadow: positive and
/// negative x with down as up, positive y looking along positive z,
/// negative y looking along negative z, and positive and negative z
/// with down as up.
pub open spec fn spec_cube_face_basis(face: int) -> CubeFaceBasis {
    if face == 0 {
        CubeFaceBasis { tx: 1, ty: 0, tz: 0, ux: 0, uy: -1i32, uz: 0 }
    } else if face == 1 {
        CubeFaceBasis { tx: -1i32, ty: 0, tz: 0, ux: 0, uy: -1i32, uz: 0 }
    } else if face == 2 {
        CubeFaceBasis { tx: 0, ty: 1, tz: 0, ux: 0, uy: 0, uz: 1 }
    } else if face == 3 {
        CubeFaceBasis { tx: 0, ty: -1i32, tz: 0, ux: 0, uy: 0, uz: -1i32 }
    } else if face == 4 {
        CubeFaceBasis { tx: 0, ty: 0, tz: 1, ux: 0, uy: -1i32, uz: 0 }
    } else {
        CubeFaceBasis { tx: 0, ty: 0, tz: -1i32, ux: 0, uy: -1i32, uz: 0 }
    }
}

/// The view basis of one cube-shadow face.
pub fn cube_face_basis(face: usize) -> (r: CubeFaceBasis)
    requires
        face < 6,
    ensures
        r == spec_cube_face_basis(face as int),
{
    if face == 0 {
        CubeFaceBasis { tx: 1, ty: 0, tz: 0, ux: 0, uy: -1, uz: 0 }
    } else if face == 1 {
        CubeFaceBasis { tx: -1, ty: 0, tz: 0, ux: 0, uy: -1, uz: 0 }
    } else if face == 2 {
        CubeFaceBasis { tx: 0, ty: 1, tz: 0, ux: 0, uy: 0, uz: 1 }
    } else if face == 3 {
        CubeFaceBasis { tx: 0, ty: -1, tz: 0, ux: 0, uy: 0, uz: -1 }
    } else if face == 4 {
        CubeFaceBasis { tx: 0, ty: 0, tz: 1, ux: 0, uy: -1, uz: 0 }
    } else {
        CubeFaceBasis { tx: 0, ty: 0, tz: -1, ux: 0, uy: -1, uz: 0 }
    }
}

/// The point attenuation coefficients, in thousandths.
#[derive(Clone, Copy, Debug, PartialEq, Eq, Structural)]
pub struct AttenuationMilli {
    pub linear_milli: i64,
    pub quadratic_milli: i64,
}

/// The point attenuation coefficients for a radius in thousandths:
/// linear is nine halves over the radius, quadratic is seventy-five
/// over the radius squared, both in thousandths.
pub open spec fn spec_attenuation(radius_milli: int) -> AttenuationMilli {
    AttenuationMilli {
        linear_milli: (4_500_000int / radius_milli) as i64,
        quadratic_milli: (75_000_000_000int / (radius_milli * radius_milli)) as i64,
    }
}

/// Compute the attenuation coefficients; a light without a positive
/// radius has none.
pub fn attenuation_milli(radius_milli: i64) -> (r: Option<AttenuationMilli>)
    requires
        radius_milli <= MAX_RADIUS_MILLI,
    ensures
        radius_milli > 0 ==> r == Some(spec_attenuation(radius_milli as int)),
        radius_milli <= 0 ==> r is None,
{
    if radius_milli > 0 {
        proof {
            assert(0 < radius_milli * radius_milli <= MAX_RADIUS_MILLI * MAX_RADIUS_MILLI)
                by (nonlinear_arith)
                requires
                    0 < radius_milli <= MAX_RADIUS_MILLI,
                    MAX_RADIUS_MILLI == 1_000_000_000,
            ;
        }
        let r2: i64 = radius_milli * radius_milli;
        Some(
            AttenuationMilli {
                linear_milli: 4_500_000 / radius_milli,
                quadratic_milli: 75_000_000_000 / r2,
            },
        )
    } else {
        None
    }
}

/// The directional shadow pass: render depth from the first
/// directional light, through an orthographic frustum of half extent
/// twenty with near one and far fifty, looking at the origin from the
/// negated direction scaled by thirty, with front-face culling.
#[derive(Clone, Copy, Debug, PartialEq, Eq, Structural)]
pub struct DirectionalShadowPass {
    pub light: usize,
    pub half_extent: u32,
    pub near: u32,
    pub far: u32,
    pub eye_distance: u32,
}

/// One point light's cube shadow passes: six faces (see
/// [`cube_face_basis`]), each a ninety-degree perspective of aspect
/// one with near a tenth and far twenty-five, centered at the light,
/// rendered into the cubemap at `slot`.
#[derive(Clone, Copy, Debug, PartialEq, Eq, Structural)]
pub struct PointShadowPass {
    pub light: usize,
    pub slot: usize,
    pub fov_degrees: u32,
    pub near_tenths: u32,
    pub far: u32,
}

/// The geometry pass: draw these entities, in scene order, writing
/// position, normal and albedo; entities without meshes are skipped.
/// The default albedo is a neutral gray with half specular intensity,
/// in thousandths per channel.
pub struct GeometryPass {
    pub draws: Vec<usize>,
    pub default_albedo_milli: (u32, u32, u32, u32),
}

/// The per-light uniform values of the lighting pass.
#[derive(Clone, Copy, Debug, PartialEq, Eq, Structural)]
pub struct LightUniforms {
    pub light: usize,
    pub kind: LightType,
    pub has_shadow: bool,
    pub shadow_slot: Option<usize>,
    pub attenuation: Option<AttenuationMilli>,
}

/// The lighting pass: one uniform record per light in scene order, the
/// G-buffer bound at units zero to two, the directional shadow map at
/// unit three, point shadow cubemaps from unit four upward, and the
/// point-shadow far plane in thousandths.
pub struct LightingPass {
    pub lights: Vec<LightUniforms>,
    pub first_directional: Option<usize>,
    pub gbuffer_units: (u32, u32, u32),
    pub directional_shadow_unit: u32,
    pub point_shadow_unit_base: u32,
    pub far_plane_milli: u32,
}

/// One unshaded light sphere, drawn after depth is blitted into the
/// HDR target: at the light's position, scaled by a fifth of the
/// radius, glowing with twenty times that scale, in thousandths.
#[derive(Clone, Copy, Debug, PartialEq, Eq, Structural)]
pub struct SphereDraw {
    pub light: usize,
    pub scale_milli: i64,
    pub intensity_milli: i64,
}

/// The bloom stage: extract texels above the threshold (thousandths)
/// from the HDR color, then blur them by the schedule; the blurred
/// result ends in the ping-pong target at `output_index`.
pub struct BloomPlan {
    pub threshold_milli: u32,
    pub blur: Vec<BlurStep>,
    pub output_index: usize,
}

/// The composite pass: tone-map the HDR scene from texture unit zero
/// with the blurred bloom from texture unit one — these bindings never
/// change, whether or not bloom ran — using the exposure and bloom
/// intensity in thousandths; the bloom source is the ping-pong target
/// at `bloom_source_index`.
#[derive(Clone, Copy, Debug, PartialEq, Eq, Structural)]
pub struct CompositePass {
    pub scene_unit: u32,
    pub bloom_unit: u32,
    pub exposure_milli: u32,
    pub intensity_milli: u32,
    pub bloom_source_index: usize,
}

/// Everything one frame renders, in pass order.
pub struct FramePlan {
    pub directional_shadow: Option<DirectionalShadowPass>,
    pub point_shadows: Vec<PointShadowPass>,
    pub geometry: GeometryPass,
    pub lighting: LightingPass,
    pub light_spheres: Vec<SphereDraw>,
    pub bloom: Option<BloomPlan>,
    pub composite: CompositePass,
}

/// How many of the first `i` lights are point lights.
pub open spec fn spec_points_before(lights: Seq<Light>, i: nat) -> nat
    decreases i,
{
    if i == 0 {
        0
    } else {
        spec_points_before(lights, (i - 1) as nat) + if lights[i - 1].light_type
            is Point {
            1nat
        } else {
            0nat
        }
    }
}

/// The first directional light among the first `i`, scanning from the
/// front.
pub open spec fn spec_first_directional(lights: Seq<Light>, i: nat) -> Option<int>
    decreases i,
{
    if i == 0 {
        None
    } else {
        match spec_first_directional(lights, (i - 1) as nat) {
            Some(j) => Some(j),
            None => if lights[i - 1].light_type is Directional {
                Some(i - 1)
            } else {
                None
            },
        }
    }
}

/// The indices of the first `i` entities that carry a mesh, in order.
pub open spec fn spec_mesh_draws(entities: Seq<Entity>, i: nat) -> Seq<usize>
    decreases i,
{
    if i == 0 {
        Seq::empty()
    } else {
        let prev = spec_mesh_draws(entities, (i - 1) as nat);
        if entities[i - 1].mesh is Some {
            prev.push((i - 1) as usize)
        } else {
            prev
        }
    }
}

/// The cube shadow passes among the first `i` lights: point lights
/// take slots in scan order from zero while the capacity lasts; the
/// rest get none.
pub open spec fn spec_point_shadows(lights: Seq<Light>, cap: nat, i: nat) -> Seq<PointShadowPass>
    decreases i,
{
    if i == 0 {
        Seq::empty()
    } else {
        let prev = spec_point_shadows(lights, cap, (i - 1) as nat);
        if lights[i - 1].light_type is Point && spec_points_before(lights, (i - 1) as nat) < cap {
            prev.push(
                PointShadowPass {
                    light: (i - 1) as usize,
                    slot: spec_points_before(lights, (i - 1) as nat) as usize,
                    fov_degrees: 90,
                    near_tenths: 1,
                    far: 25,
                },
            )
        } else {
            prev
        }
    }
}

/// The sphere draws of the first `i` lights: one per point light,
/// whatever its shadow slot.
pub open spec fn spec_sphere_draws(lights: Seq<Light>, i: nat) -> Seq<SphereDraw>
    decreases i,
{
    if i == 0 {
        Seq::empty()
    } else {
        let prev = spec_sphere_draws(lights, (i - 1) as nat);
        if lights[i - 1].light_type is Point {
            prev.push(
                SphereDraw {
                    light: (i - 1) as usize,
                    scale_milli: (lights[i - 1].radius_milli as int / 5) as i64,
                    intensity_milli: (20 * (lights[i - 1].radius_milli as int / 5)) as i64,
                },
            )
        } else {
            prev
        }
    }
}

/// The uniform record of light `i`: its kind; a shadow for every
/// directional light and for each point light whose scan position is
/// within the configured capacity, with that position as its slot;
/// and the attenuation coefficients of its radius.
pub open spec fn spec_light_uniform(lights: Seq<Light>, cap: nat, i: int) -> LightUniforms {
    let l = lights[i];
    let before = spec_points_before(lights, i as nat);
    LightUniforms {
        light: i as usize,
        kind: l.light_type,
        has_shadow: l.light_type is Directional || (l.light_type is Point && before < cap),
        shadow_slot: if l.light_type is Point && before < cap {
            Some(before as usize)
        } else {
            None
        },
        attenuation: if l.radius_milli > 0 {
            Some(spec_attenuation(l.radius_milli as int))
        } else {
            None
        },
    }
}

/// What a correct frame plan says of a scene and a renderer: the pass
/// decisions listed on [`FramePlan`], field by field.
pub open spec fn plan_matches(scene: Scene, renderer: Renderer, r: FramePlan) -> bool {
    ({
            let lights = scene.lights@;
            let n = lights.len();
            let cap = renderer.shadows.point_cubes@.len();
            &&& (match spec_first_directional(lights, n) {
                None => r.directional_shadow is None,
                Some(j) => r.directional_shadow == Some(
                    DirectionalShadowPass {
                        light: j as usize,
                        half_extent: 20,
                        near: 1,
                        far: 50,
                        eye_distance: 30,
                    },
                ),
            })
            &&& r.point_shadows@ == spec_point_shadows(lights, cap, n)
            &&& r.geometry.draws@ == spec_mesh_draws(scene.entities@, scene.entities@.len())
            &&& r.geometry.default_albedo_milli == (950u32, 950u32, 950u32, 500u32)
            &&& r.lighting.lights@.len() == n
            &&& (forall|i: int|
                0 <= i < n ==> #[trigger] r.lighting.lights@[i] == spec_light_uniform(
                    lights,
                    cap,
                    i,
                ))
            &&& (match spec_first_directional(lights, n) {
                None => r.lighting.first_directional is None,
                Some(j) => r.lighting.first_directional == Some(j as usize),
            })
            &&& r.lighting.gbuffer_units == (0u32, 1u32, 2u32)
            &&& r.lighting.directional_shadow_unit == 3
            &&& r.lighting.point_shadow_unit_base == 4
            &&& r.lighting.far_plane_milli == 25000
            &&& r.light_spheres@ == spec_sphere_draws(lights, n)
            &&& (renderer.bloom_enabled ==> (r.bloom matches Some(b) && {
                &&& b.threshold_milli == renderer.bloom_threshold_milli
                &&& b.blur@ == crate::render::spec_blur_schedule(renderer.blur_iterations as nat)
                &&& b.output_index == spec_blur_output_index(renderer.blur_iterations as nat)
            }))
            &&& (!renderer.bloom_enabled ==> r.bloom is None)
            &&& r.composite == (CompositePass {
                scene_unit: 0u32,
                bloom_unit: 1u32,
                exposure_milli: renderer.exposure_milli,
                intensity_milli: renderer.bloom_intensity_milli,
                bloom_source_index: if renderer.bloom_enabled {
                    spec_blur_output_index(renderer.blur_iterations as nat) as usize
                } else {
                    0
                },
            })
        })
}

/// Build the plan of one frame from the scene and the renderer state.
pub fn plan_frame(scene: &Scene, renderer: &Renderer) -> (r: FramePlan)
    requires
        scene.wf(),
    ensures
        plan_matches(*scene, *renderer, r),
{
    let nl = scene.lights.len();
    let ne = scene.entities.len();
    let cap = renderer.shadow_capacity();

    // First directional light, scan order.
    let mut first_dir: Option<usize> = None;
    let mut i: usize = 0;
    while i < nl
        invariant
            i <= nl,
            nl == scene.lights@.len(),
            match spec_first_directional(scene.lights@, i as nat) {
                None => first_dir is None,
                Some(j) => first_dir == Some(j as usize),
            },
        decreases nl - i,
    {
        if first_dir.is_none() {
            if matches!(scene.lights[i].light_type, LightType::Directional) {
                first_dir = Some(i);
            }
        }
        i = i + 1;
    }

    let directional_shadow: Option<DirectionalShadowPass> = match first_dir {
        Some(j) => Some(
            DirectionalShadowPass { light: j, half_extent: 20, near: 1, far: 50, eye_distance: 30 },
        ),
        None => None,
    };

    // Cube shadow passes and per-light uniforms, one scan.
    let mut point_shadows: Vec<PointShadowPass> = Vec::new();
    let mut light_uniforms: Vec<LightUniforms> = Vec::new();
    let mut light_spheres: Vec<SphereDraw> = Vec::new();
    let mut points: usize = 0;
    let mut i: usize = 0;
    while i < nl
        invariant
            i <= nl,
            nl == scene.lights@.len(),
            scene.wf(),
            cap == renderer.shadows.point_cubes@.len(),
            points == spec_points_before(scene.lights@, i as nat),
            points <= i,
            point_shadows@ == spec_point_shadows(scene.lights@, cap as nat, i as nat),
            light_spheres@ == spec_sphere_draws(scene.lights@, i as nat),
            light_uniforms@.len() == i,
            forall|k: int|
                0 <= k < i ==> #[trigger] light_uniforms@[k] == spec_light_uniform(
                    scene.lights@,
                    cap as nat,
                    k,
                ),
        decreases nl - i,
    {
        let l = &scene.lights[i];
        proof {
            assert(scene.lights@[i as int].wf());
        }
        let is_point = matches!(l.light_type, LightType::Point);
        let taken = is_point && points < cap;
        if taken {
            point_shadows.push(
                PointShadowPass { light: i, slot: points, fov_degrees: 90, near_tenths: 1, far: 25 },
            );
        }
        if is_point {
            let scale: i64 = l.radius_milli / 5;
            light_spheres.push(SphereDraw { light: i, scale_milli: scale, intensity_milli: 20 * scale });
        }
        light_uniforms.push(
            LightUniforms {
                light: i,
                kind: l.light_type,
                has_shadow: matches!(l.light_type, LightType::Directional) || taken,
                shadow_slot: if taken {
                    Some(points)
                } else {
                    None
                },
                attenuation: attenuation_milli(l.radius_milli),
            },
        );
        if is_point {
            points = points + 1;
        }
        i = i + 1;
    }

    // Geometry draws.
    let mut draws: Vec<usize> = Vec::new();
    let mut i: usize = 0;
    while i < ne
        invariant
            i <= ne,
            ne == scene.entities@.len(),
            draws@ == spec_mesh_draws(scene.entities@, i as nat),
        decreases ne - i,
    {
        if scene.entities[i].mesh.is_some() {
            draws.push(i);
        }
        i = i + 1;
    }

    let bloom: Option<BloomPlan> = if renderer.bloom_enabled {
        let blur = crate::render::blur_schedule(renderer.blur_iterations);
        let output_index = crate::render::blur_output_index(renderer.blur_iterations);
        Some(
            BloomPlan { threshold_milli: renderer.bloom_threshold_milli, blur, output_index },
        )
    } else {
        None
    };

    let bloom_source_index: usize = if renderer.bloom_enabled {
        crate::render::blur_output_index(renderer.blur_iterations)
    } else {
        0
    };

    FramePlan {
        directional_shadow,
        point_shadows,
        geometry: GeometryPass { draws, default_albedo_milli: (950, 950, 950, 500) },
        lighting: LightingPass {
            lights: light_uniforms,
            first_directional: first_dir,
            gbuffer_units: (0, 1, 2),
            directional_shadow_unit: 3,
            point_shadow_unit_base: 4,
            far_plane_milli: 25000,
        },
        light_spheres,
        bloom,
        composite: CompositePass {
            scene_unit: 0,
            bloom_unit: 1,
            exposure_milli: renderer.exposure_milli,
            intensity_milli: renderer.bloom_intensity_milli,
            bloom_source_index,
        },
    }
}

} // verus!
