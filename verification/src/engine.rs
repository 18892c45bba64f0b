//! The engine: the verified state of one running instance — scene,
//! camera, renderer and mixer — and the decisions of one tick. The
//! embedding owns the window, the graphics context and the audio
//! device; it polls events, steps physics, hands the listener state
//! over once per frame, and executes the plan this module builds.

use vstd::prelude::*;

use crate::audio::{AudioSource, ListenerState, Vec3Fx};
use crate::frame::{plan_frame, plan_matches, FramePlan};
use crate::fx::spec_clamp;
use crate::mixer::AudioMixer;
use crate::render::{spec_frame_targets, spec_point_cube, Renderer};
use crate::scene::{Camera, Entity, Light, Scene};

verus! {

/// Pitch stays within just under a quarter turn either way, in
/// thousandths of a degree.
pub const PITCH_LIMIT_MILLI: i64 = 89000;

/// One running engine instance.
pub struct Engine {
    pub scene: Scene,
    pub camera: Camera,
    pub renderer: Renderer,
    pub mixer: AudioMixer,
    pub should_quit: bool,
}

impl Engine {
    /// Well-formed engine: scene, renderer and mixer well-formed.
    pub open spec fn wf(self) -> bool {
        self.scene.wf() && self.renderer.wf() && self.mixer.wf()
    }

    /// A fresh engine at the given surface size: empty scene, camera
    /// at the origin, default renderer, empty mixer, not quitting.
    pub fn new(width: u32, height: u32) -> (r: Engine)
        ensures
            r.wf(),
            r.scene.entities@.len() == 0,
            r.scene.lights@.len() == 0,
            r.camera == (Camera {
                position: Vec3Fx { x: 0, y: 0, z: 0 },
                yaw_milli: -90000i64,
                pitch_milli: 0i64,
                fov_milli: 45000i64,
            }),
            r.renderer.targets == spec_frame_targets(width, height),
            r.renderer.shadows.point_cubes@.len() == 0,
            r.mixer.sources@.len() == 0,
            !r.should_quit,
    {
        Engine {
            scene: Scene::new(),
            camera: Camera::new(0, 0, 0),
            renderer: Renderer::new(width, height),
            mixer: AudioMixer::default(),
            should_quit: false,
        }
    }

    /// The camera.
    pub fn get_camera(&self) -> (r: Camera)
        ensures
            r == self.camera,
    {
        self.camera
    }

    /// Replace the camera.
    pub fn set_camera(&mut self, camera: Camera)
        ensures
            *final(self) == (Engine { camera, ..*old(self) }),
    {
        self.camera = camera;
    }

    /// Append an entity to the scene.
    pub fn add_entity(&mut self, entity: Entity)
        ensures
            final(self).scene.entities@ == old(self).scene.entities@.push(entity),
            final(self).scene.lights == old(self).scene.lights,
            final(self).camera == old(self).camera,
            final(self).should_quit == old(self).should_quit,
            old(self).wf() ==> final(self).wf(),
    {
        self.scene.add_entity(entity);
    }

    /// Append a light to the scene.
    pub fn add_light(&mut self, light: Light)
        requires
            light.wf(),
        ensures
            final(self).scene.lights@ == old(self).scene.lights@.push(light),
            final(self).scene.entities == old(self).scene.entities,
            final(self).camera == old(self).camera,
            final(self).should_quit == old(self).should_quit,
            old(self).wf() ==> final(self).wf(),
    {
        self.scene.add_light(light);
    }

    /// Hand an audio source to the mixer.
    pub fn add_audio_source(&mut self, source: AudioSource)
        requires
            source.wf(),
        ensures
            final(self).mixer.sources@ == old(self).mixer.sources@.push(source),
            final(self).mixer.listener == old(self).mixer.listener,
            final(self).should_quit == old(self).should_quit,
            old(self).wf() ==> final(self).wf(),
    {
        self.mixer.add_source(source);
    }

    /// Write the listener state the audio callback will read, derived
    /// by the embedding from the camera once per frame.
    pub fn set_listener(&mut self, listener: ListenerState)
        requires
            listener.wf(),
        ensures
            final(self).mixer.listener == listener,
            final(self).mixer.sources == old(self).mixer.sources,
            final(self).scene == old(self).scene,
            final(self).camera == old(self).camera,
            final(self).should_quit == old(self).should_quit,
            old(self).wf() ==> final(self).wf(),
    {
        self.mixer.listener = listener;
    }

    /// Reconfigure the point-light shadow capacity.
    pub fn configure_point_lights(&mut self, count: usize)
        ensures
            final(self).renderer.shadows.point_cubes@.len() == count,
            forall|i: int|
                0 <= i < count ==> #[trigger] final(self).renderer.shadows.point_cubes@[i]
                    == spec_point_cube(),
            final(self).renderer.targets == old(self).renderer.targets,
            final(self).scene == old(self).scene,
            final(self).should_quit == old(self).should_quit,
            old(self).wf() ==> final(self).wf(),
    {
        self.renderer.configure_point_lights(count);
    }

    /// Resize to a reported surface size: dimensions are clamped to at
    /// least one, and every size-dependent target is rebuilt at the
    /// new size.
    pub fn resize(&mut self, width: i32, height: i32)
        ensures
            final(self).renderer.targets == spec_frame_targets(
                spec_clamp(width as int, 1, i32::MAX as int) as u32,
                spec_clamp(height as int, 1, i32::MAX as int) as u32,
            ),
            final(self).renderer.shadows == old(self).renderer.shadows,
            final(self).scene == old(self).scene,
            final(self).should_quit == old(self).should_quit,
            old(self).wf() ==> final(self).wf(),
    {
        let w: u32 = if width > 0 {
            width as u32
        } else {
            1
        };
        let h: u32 = if height > 0 {
            height as u32
        } else {
            1
        };
        self.renderer.resize(w, h);
    }

    /// Move the camera by a delta.
    pub fn move_camera(&mut self, dx: i64, dy: i64, dz: i64)
        requires
            i64::MIN <= old(self).camera.position.x + dx <= i64::MAX,
            i64::MIN <= old(self).camera.position.y + dy <= i64::MAX,
            i64::MIN <= old(self).camera.position.z + dz <= i64::MAX,
        ensures
            final(self).camera.position == (Vec3Fx {
                x: (old(self).camera.position.x + dx) as i64,
                y: (old(self).camera.position.y + dy) as i64,
                z: (old(self).camera.position.z + dz) as i64,
            }),
            final(self).camera.yaw_milli == old(self).camera.yaw_milli,
            final(self).camera.pitch_milli == old(self).camera.pitch_milli,
            final(self).camera.fov_milli == old(self).camera.fov_milli,
            final(self).scene == old(self).scene,
            final(self).should_quit == old(self).should_quit,
            old(self).wf() ==> final(self).wf(),
    {
        self.camera.position = Vec3Fx {
            x: self.camera.position.x + dx,
            y: self.camera.position.y + dy,
            z: self.camera.position.z + dz,
        };
    }

    /// Turn the camera by a yaw and pitch delta; pitch is clamped so
    /// the view never flips over the poles.
    pub fn rotate_camera(&mut self, dyaw: i64, dpitch: i64)
        requires
            i64::MIN <= old(self).camera.yaw_milli + dyaw <= i64::MAX,
            i64::MIN <= old(self).camera.pitch_milli + dpitch <= i64::MAX,
        ensures
            final(self).camera.yaw_milli == old(self).camera.yaw_milli + dyaw,
            final(self).camera.pitch_milli == spec_clamp(
                old(self).camera.pitch_milli + dpitch,
                -PITCH_LIMIT_MILLI as int,
                PITCH_LIMIT_MILLI as int,
            ),
            final(self).camera.position == old(self).camera.position,
            final(self).camera.fov_milli == old(self).camera.fov_milli,
            final(self).scene == old(self).scene,
            final(self).should_quit == old(self).should_quit,
            old(self).wf() ==> final(self).wf(),
    {
        self.camera.yaw_milli = self.camera.yaw_milli + dyaw;
        self.camera.pitch_milli = crate::fx::clamp_fx(
            self.camera.pitch_milli + dpitch,
            -PITCH_LIMIT_MILLI,
            PITCH_LIMIT_MILLI,
        );
    }

    /// Request a graceful quit: stop every source, so the audio
    /// callback goes silent, and make the next tick report the stop.
    pub fn quit(&mut self)
        ensures
            final(self).should_quit,
            final(self).mixer.sources@.len() == old(self).mixer.sources@.len(),
            forall|i: int|
                0 <= i < old(self).mixer.sources@.len() ==> #[trigger] final(self).mixer.sources@[i]
                    == (AudioSource { playing: false, ..old(self).mixer.sources@[i] }),
            final(self).mixer.listener == old(self).mixer.listener,
            final(self).scene == old(self).scene,
            final(self).camera == old(self).camera,
            final(self).renderer == old(self).renderer,
            old(self).wf() ==> final(self).wf(),
    {
        let n = self.mixer.sources.len();
        let ghost gsources = self.mixer.sources@;
        let mut i: usize = 0;
        while i < n
            invariant
                i <= n,
                n == gsources.len(),
                self.mixer.sources@.len() == n,
                forall|k: int|
                    0 <= k < n - i ==> #[trigger] self.mixer.sources@[k] == gsources[k + i],
                forall|k: int|
                    n - i <= k < n ==> #[trigger] self.mixer.sources@[k] == (AudioSource {
                        playing: false,
                        ..gsources[k - (n - i)]
                    }),
                self.mixer.listener == old(self).mixer.listener,
                self.scene == old(self).scene,
                self.camera == old(self).camera,
                self.renderer == old(self).renderer,
                self.should_quit == old(self).should_quit,
                gsources == old(self).mixer.sources@,
            decreases n - i,
        {
            let mut src = self.mixer.sources.remove(0);
            src.pause();
            self.mixer.sources.push(src);
            i = i + 1;
        }
        self.should_quit = true;
        proof {
            assert(forall|k: int|
                0 <= k < n ==> #[trigger] self.mixer.sources@[k] == (AudioSource {
                    playing: false,
                    ..gsources[k]
                }));
        }
    }

    /// One tick: nothing once a quit was requested; otherwise the plan
    /// of the frame to render. The embedding polls its events first
    /// (feeding [`Engine::resize`] and the camera), steps physics,
    /// writes the listener state, then executes the returned plan.
    pub fn update(&mut self) -> (r: Option<FramePlan>)
        requires
            old(self).wf(),
        ensures
            *final(self) == *old(self),
            r is None <==> old(self).should_quit,
            r matches Some(p) ==> plan_matches(old(self).scene, old(self).renderer, p),
    {
        if self.should_quit {
            None
        } else {
            Some(plan_frame(&self.scene, &self.renderer))
        }
    }
}

} // verus!
