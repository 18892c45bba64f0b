//! The renderer's resource model: every render target the deferred
//! pipeline owns, with its format, filtering and dimensions. The
//! embedding allocates the actual GPU objects to match these
//! descriptions and tears them down and rebuilds them whenever the
//! model is rebuilt — on resize, all size-dependent targets together;
//! on shadow reconfiguration, all point-light cubemaps together.

use vstd::prelude::*;

verus! {

/// Side length of the directional shadow map.
pub const DIRECTIONAL_SHADOW_SIZE: u32 = 2048;

/// Side length of one point-light cube shadow face.
pub const POINT_SHADOW_SIZE: u32 = 1024;

/// Faces of a cube shadow map.
pub const CUBE_FACES: usize = 6;

/// Storage formats of the pipeline's targets.
#[derive(Clone, Copy, Debug, PartialEq, Eq, Structural)]
pub enum TexFormat {
    /// Four half-float channels, for world positions, normals and HDR
    /// color.
    Rgba16F,
    /// Four byte channels, for albedo and specular intensity.
    Rgba8,
    /// A depth component.
    Depth,
}

/// Filtering of a target when sampled.
#[derive(Clone, Copy, Debug, PartialEq, Eq, Structural)]
pub enum TexFilter {
    Nearest,
    Linear,
}

/// One two-dimensional render target.
#[derive(Clone, Copy, Debug, PartialEq, Eq, Structural)]
pub struct TargetDesc {
    pub format: TexFormat,
    pub filter: TexFilter,
    pub width: u32,
    pub height: u32,
}

/// One point light's shadow cubemap: six square depth faces.
#[derive(Clone, Copy, Debug, PartialEq, Eq, Structural)]
pub struct CubeShadowDesc {
    pub face_size: u32,
    pub faces: usize,
}

/// The cubemap every point light's shadow uses.
pub open spec fn spec_point_cube() -> CubeShadowDesc {
    CubeShadowDesc { face_size: POINT_SHADOW_SIZE, faces: CUBE_FACES }
}

/// The fixed-size directional shadow target.
pub open spec fn spec_directional_shadow() -> TargetDesc {
    TargetDesc {
        format: TexFormat::Depth,
        filter: TexFilter::Nearest,
        width: DIRECTIONAL_SHADOW_SIZE,
        height: DIRECTIONAL_SHADOW_SIZE,
    }
}

/// All size-dependent targets of the pipeline at the given dimensions:
/// the G-buffer (positions, normals, albedo with specular, depth), the
/// HDR color target with its depth, the bloom bright-pass target, and
/// the two ping-pong blur targets.
pub open spec fn spec_frame_targets(width: u32, height: u32) -> FrameTargets {
    FrameTargets {
        width,
        height,
        g_position: TargetDesc { format: TexFormat::Rgba16F, filter: TexFilter::Nearest, width, height },
        g_normal: TargetDesc { format: TexFormat::Rgba16F, filter: TexFilter::Nearest, width, height },
        g_albedo_spec: TargetDesc { format: TexFormat::Rgba8, filter: TexFilter::Nearest, width, height },
        g_depth: TargetDesc { format: TexFormat::Depth, filter: TexFilter::Nearest, width, height },
        hdr_color: TargetDesc { format: TexFormat::Rgba16F, filter: TexFilter::Nearest, width, height },
        hdr_depth: TargetDesc { format: TexFormat::Depth, filter: TexFilter::Nearest, width, height },
        bloom_color: TargetDesc { format: TexFormat::Rgba16F, filter: TexFilter::Linear, width, height },
        pingpong0: TargetDesc { format: TexFormat::Rgba16F, filter: TexFilter::Linear, width, height },
        pingpong1: TargetDesc { format: TexFormat::Rgba16F, filter: TexFilter::Linear, width, height },
    }
}

/// The size-dependent frame targets. Invariant: every target's
/// dimensions equal the current size — stale targets never survive a
/// resize.
#[derive(Clone, Copy, Debug, PartialEq, Eq, Structural)]
pub struct FrameTargets {
    pub width: u32,
    pub height: u32,
    pub g_position: TargetDesc,
    pub g_normal: TargetDesc,
    pub g_albedo_spec: TargetDesc,
    pub g_depth: TargetDesc,
    pub hdr_color: TargetDesc,
    pub hdr_depth: TargetDesc,
    pub bloom_color: TargetDesc,
    pub pingpong0: TargetDesc,
    pub pingpong1: TargetDesc,
}

impl FrameTargets {
    /// Every target matches the current dimensions and its fixed
    /// format.
    pub open spec fn wf(self) -> bool {
        self == spec_frame_targets(self.width, self.height)
    }

    /// Build the whole set of size-dependent targets at the given
    /// dimensions.
    pub fn create(width: u32, height: u32) -> (r: FrameTargets)
        ensures
            r == spec_frame_targets(width, height),
            r.wf(),
    {
        FrameTargets {
            width,
            height,
            g_position: TargetDesc {
                format: TexFormat::Rgba16F,
                filter: TexFilter::Nearest,
                width,
                height,
            },
            g_normal: TargetDesc {
                format: TexFormat::Rgba16F,
                filter: TexFilter::Nearest,
                width,
                height,
            },
            g_albedo_spec: TargetDesc {
                format: TexFormat::Rgba8,
                filter: TexFilter::Nearest,
                width,
                height,
            },
            g_depth: TargetDesc {
                format: TexFormat::Depth,
                filter: TexFilter::Nearest,
                width,
                height,
            },
            hdr_color: TargetDesc {
                format: TexFormat::Rgba16F,
                filter: TexFilter::Nearest,
                width,
                height,
            },
            hdr_depth: TargetDesc {
                format: TexFormat::Depth,
                filter: TexFilter::Nearest,
                width,
                height,
            },
            bloom_color: TargetDesc {
                format: TexFormat::Rgba16F,
                filter: TexFilter::Linear,
                width,
                height,
            },
            pingpong0: TargetDesc {
                format: TexFormat::Rgba16F,
                filter: TexFilter::Linear,
                width,
                height,
            },
            pingpong1: TargetDesc {
                format: TexFormat::Rgba16F,
                filter: TexFilter::Linear,
                width,
                height,
            },
        }
    }
}

/// The shadow resources: one fixed-size directional depth target and
/// one cubemap per configured point light.
pub struct ShadowResources {
    pub directional: TargetDesc,
    pub point_cubes: Vec<CubeShadowDesc>,
}

impl ShadowResources {
    /// The directional target has its fixed size; every cubemap has
    /// six faces of the fixed face size.
    pub open spec fn wf(self) -> bool {
        &&& self.directional == spec_directional_shadow()
        &&& forall|i: int|
            0 <= i < self.point_cubes@.len() ==> #[trigger] self.point_cubes@[i]
                == spec_point_cube()
    }

    /// Fresh shadow resources: the directional target, no cubemaps.
    pub fn create() -> (r: ShadowResources)
        ensures
            r.wf(),
            r.point_cubes@.len() == 0,
    {
        ShadowResources {
            directional: TargetDesc {
                format: TexFormat::Depth,
                filter: TexFilter::Nearest,
                width: DIRECTIONAL_SHADOW_SIZE,
                height: DIRECTIONAL_SHADOW_SIZE,
            },
            point_cubes: Vec::new(),
        }
    }

    /// Reconfigure for `count` point lights: tear every cubemap down
    /// and build exactly `count` fresh ones, whatever was allocated
    /// before.
    pub fn configure_point_lights(&mut self, count: usize)
        ensures
            final(self).point_cubes@.len() == count,
            forall|i: int|
                0 <= i < count ==> #[trigger] final(self).point_cubes@[i] == spec_point_cube(),
            final(self).directional == old(self).directional,
            old(self).wf() ==> final(self).wf(),
    {
        self.point_cubes = Vec::new();
        let mut i: usize = 0;
        while i < count
            invariant
                i <= count,
                self.point_cubes@.len() == i,
                forall|k: int|
                    0 <= k < i ==> #[trigger] self.point_cubes@[k] == spec_point_cube(),
                self.directional == old(self).directional,
            decreases count - i,
        {
            self.point_cubes.push(
                CubeShadowDesc { face_size: POINT_SHADOW_SIZE, faces: CUBE_FACES },
            );
            i = i + 1;
        }
    }
}


/// Where one blur pass reads from.
#[derive(Clone, Copy, Debug, PartialEq, Eq, Structural)]
pub enum BlurSource {
    /// The bloom bright-pass capture.
    BrightPass,
    /// A ping-pong target.
    Pingpong(usize),
}

/// One single-direction Gaussian blur pass: its orientation, the
/// ping-pong target it writes, and where it reads.
#[derive(Clone, Copy, Debug, PartialEq, Eq, Structural)]
pub struct BlurStep {
    pub horizontal: bool,
    pub write_index: usize,
    pub source: BlurSource,
}

/// The blur pass at position `j`: the orientation alternates starting
/// horizontal; a horizontal pass writes ping-pong target one and a
/// vertical pass target zero; the first pass reads the bright-pass
/// capture, every later one the opposite ping-pong target.
pub open spec fn spec_blur_step(j: int) -> BlurStep {
    let horizontal = j % 2 == 0;
    BlurStep {
        horizontal,
        write_index: if horizontal {
            1
        } else {
            0
        },
        source: if j == 0 {
            BlurSource::BrightPass
        } else {
            BlurSource::Pingpong(
                if horizontal {
                    0
                } else {
                    1
                },
            )
        },
    }
}

/// The whole separable blur schedule for the given pass count.
pub open spec fn spec_blur_schedule(iterations: nat) -> Seq<BlurStep> {
    Seq::new(iterations, |j: int| spec_blur_step(j))
}

/// The ping-pong target that holds the final blurred image: the one
/// the last pass wrote; with no pass at all, target zero.
pub open spec fn spec_blur_output_index(iterations: nat) -> nat {
    if iterations % 2 == 1 {
        1
    } else {
        0
    }
}

/// Build the blur schedule.
pub fn blur_schedule(iterations: usize) -> (r: Vec<BlurStep>)
    ensures
        r@ == spec_blur_schedule(iterations as nat),
{
    let mut r: Vec<BlurStep> = Vec::new();
    let mut j: usize = 0;
    while j < iterations
        invariant
            j <= iterations,
            r@.len() == j,
            forall|k: int| 0 <= k < j ==> #[trigger] r@[k] == spec_blur_step(k),
        decreases iterations - j,
    {
        let horizontal = j % 2 == 0;
        let write_index: usize = if horizontal {
            1
        } else {
            0
        };
        let source = if j == 0 {
            BlurSource::BrightPass
        } else {
            BlurSource::Pingpong(1 - write_index)
        };
        r.push(BlurStep { horizontal, write_index, source });
        j = j + 1;
    }
    proof {
        assert(r@ =~= spec_blur_schedule(iterations as nat));
    }
    r
}

/// The ping-pong target the blurred image ends in.
pub fn blur_output_index(iterations: usize) -> (r: usize)
    ensures
        r == spec_blur_output_index(iterations as nat),
        r <= 1,
{
    if iterations % 2 == 1 {
        1
    } else {
        0
    }
}

/// A linked shader program, by the handle the embedding's compiler
/// returned for it.
#[derive(Clone, Copy, Debug, PartialEq, Eq, Structural)]
pub struct Shader {
    pub id: u32,
}

impl Shader {
    /// Wrap a program handle.
    pub fn new(id: u32) -> (r: Shader)
        ensures
            r.id == id,
    {
        Shader { id }
    }
}

/// The renderer's verified state: the frame targets, the shadow
/// resources, and the bloom and tone-mapping configuration, in
/// thousandths.
pub struct Renderer {
    pub targets: FrameTargets,
    pub shadows: ShadowResources,
    pub bloom_enabled: bool,
    pub bloom_threshold_milli: u32,
    pub bloom_intensity_milli: u32,
    pub exposure_milli: u32,
    pub blur_iterations: usize,
}

impl Renderer {
    /// Well-formed renderer: targets and shadow resources well-formed.
    pub open spec fn wf(self) -> bool {
        self.targets.wf() && self.shadows.wf()
    }

    /// A renderer at the given surface size with the default
    /// configuration: bloom on, threshold three tenths, intensity and
    /// exposure one, ten blur passes, no point-light shadows yet.
    pub fn new(width: u32, height: u32) -> (r: Renderer)
        ensures
            r.wf(),
            r.targets == spec_frame_targets(width, height),
            r.shadows.point_cubes@.len() == 0,
            r.bloom_enabled == true,
            r.bloom_threshold_milli == 300,
            r.bloom_intensity_milli == 1000,
            r.exposure_milli == 1000,
            r.blur_iterations == 10,
    {
        Renderer {
            targets: FrameTargets::create(width, height),
            shadows: ShadowResources::create(),
            bloom_enabled: true,
            bloom_threshold_milli: 300,
            bloom_intensity_milli: 1000,
            exposure_milli: 1000,
            blur_iterations: 10,
        }
    }

    /// Resize: rebuild every size-dependent target at the new
    /// dimensions; nothing else changes, and no stale dimensions
    /// survive.
    pub fn resize(&mut self, width: u32, height: u32)
        ensures
            final(self).targets == spec_frame_targets(width, height),
            final(self).targets.wf(),
            final(self).shadows == old(self).shadows,
            final(self).bloom_enabled == old(self).bloom_enabled,
            final(self).bloom_threshold_milli == old(self).bloom_threshold_milli,
            final(self).bloom_intensity_milli == old(self).bloom_intensity_milli,
            final(self).exposure_milli == old(self).exposure_milli,
            final(self).blur_iterations == old(self).blur_iterations,
            old(self).wf() ==> final(self).wf(),
    {
        self.targets = FrameTargets::create(width, height);
    }

    /// Reconfigure the point-light shadow capacity.
    pub fn configure_point_lights(&mut self, count: usize)
        ensures
            final(self).shadows.point_cubes@.len() == count,
            forall|i: int|
                0 <= i < count ==> #[trigger] final(self).shadows.point_cubes@[i]
                    == spec_point_cube(),
            final(self).shadows.directional == old(self).shadows.directional,
            final(self).targets == old(self).targets,
            final(self).bloom_enabled == old(self).bloom_enabled,
            final(self).bloom_threshold_milli == old(self).bloom_threshold_milli,
            final(self).bloom_intensity_milli == old(self).bloom_intensity_milli,
            final(self).exposure_milli == old(self).exposure_milli,
            final(self).blur_iterations == old(self).blur_iterations,
            old(self).wf() ==> final(self).wf(),
    {
        self.shadows.configure_point_lights(count);
    }

    /// The configured point-light shadow capacity.
    pub fn shadow_capacity(&self) -> (r: usize)
        ensures
            r == self.shadows.point_cubes@.len(),
    {
        self.shadows.point_cubes.len()
    }
}

} // verus!
