//! The scene data the pipeline reads each frame: entities with their
//! transforms and optional meshes, the camera, and the lights. All
//! real-valued fields are fixed point or thousandths; the embedding owns
//! the GPU meshes and refers to them by handle.

use vstd::prelude::*;

use crate::audio::Vec3Fx;
use crate::fx::UNIT;

verus! {

/// Bound on a light radius in thousandths (a million world units), so
/// that attenuation arithmetic stays within the machine integers.
pub const MAX_RADIUS_MILLI: i64 = 1_000_000_000;

/// A rotation as a quaternion of fixed-point components.
#[derive(Clone, Copy, Debug, PartialEq, Eq, Structural)]
pub struct QuatFx {
    pub x: i64,
    pub y: i64,
    pub z: i64,
    pub w: i64,
}

impl QuatFx {
    /// The identity rotation.
    pub fn identity() -> (r: QuatFx)
        ensures
            r == (QuatFx { x: 0, y: 0, z: 0, w: UNIT as i64 }),
    {
        QuatFx { x: 0, y: 0, z: 0, w: UNIT }
    }
}

/// Position, rotation and scale of one entity.
#[derive(Clone, Copy, Debug, PartialEq, Eq, Structural)]
pub struct Transform {
    pub position: Vec3Fx,
    pub rotation: QuatFx,
    pub scale: Vec3Fx,
}

impl Transform {
    /// The identity transform as a specification value.
    pub open spec fn spec_identity() -> Transform {
        Transform {
            position: Vec3Fx { x: 0, y: 0, z: 0 },
            rotation: QuatFx { x: 0, y: 0, z: 0, w: UNIT as i64 },
            scale: Vec3Fx { x: UNIT as i64, y: UNIT as i64, z: UNIT as i64 },
        }
    }

    /// The identity transform: at the origin, unrotated, unit scale.
    pub fn new() -> (r: Transform)
        ensures
            r == Transform::spec_identity(),
            r == (Transform {
                position: Vec3Fx { x: 0, y: 0, z: 0 },
                rotation: QuatFx { x: 0, y: 0, z: 0, w: UNIT as i64 },
                scale: Vec3Fx { x: UNIT as i64, y: UNIT as i64, z: UNIT as i64 },
            }),
    {
        Transform {
            position: Vec3Fx::zero(),
            rotation: QuatFx::identity(),
            scale: Vec3Fx { x: UNIT, y: UNIT, z: UNIT },
        }
    }
}

impl Default for Transform {
    /// See [`Transform::new`].
    fn default() -> (r: Transform)
        ensures
            r == Transform::spec_identity(),
    {
        Transform::new()
    }
}

/// One thing in the world: a transform and, optionally, a handle to a
/// mesh the embedding owns.
#[derive(Clone, Copy, Debug, PartialEq, Eq, Structural)]
pub struct Entity {
    pub transform: Transform,
    pub mesh: Option<u32>,
}

impl Entity {
    /// A fresh entity: identity transform, no mesh.
    pub fn new() -> (r: Entity)
        ensures
            r.transform == Transform::spec_identity(),
            r.mesh is None,
    {
        Entity { transform: Transform::new(), mesh: None }
    }

    /// Attach a mesh handle.
    pub fn set_mesh(&mut self, mesh: u32)
        ensures
            *final(self) == (Entity { mesh: Some(mesh), ..*old(self) }),
    {
        self.mesh = Some(mesh);
    }

    /// The position.
    pub fn get_position(&self) -> (r: Vec3Fx)
        ensures
            r == self.transform.position,
    {
        self.transform.position
    }

    /// Move the entity.
    pub fn set_position(&mut self, position: Vec3Fx)
        ensures
            final(self).transform.position == position,
            final(self).transform.rotation == old(self).transform.rotation,
            final(self).transform.scale == old(self).transform.scale,
            final(self).mesh == old(self).mesh,
    {
        self.transform.position = position;
    }

    /// The rotation.
    pub fn get_rotation(&self) -> (r: QuatFx)
        ensures
            r == self.transform.rotation,
    {
        self.transform.rotation
    }

    /// Rotate the entity.
    pub fn set_rotation(&mut self, rotation: QuatFx)
        ensures
            final(self).transform.rotation == rotation,
            final(self).transform.position == old(self).transform.position,
            final(self).transform.scale == old(self).transform.scale,
            final(self).mesh == old(self).mesh,
    {
        self.transform.rotation = rotation;
    }

    /// The scale.
    pub fn get_scale(&self) -> (r: Vec3Fx)
        ensures
            r == self.transform.scale,
    {
        self.transform.scale
    }

    /// Scale the entity.
    pub fn set_scale(&mut self, scale: Vec3Fx)
        ensures
            final(self).transform.scale == scale,
            final(self).transform.position == old(self).transform.position,
            final(self).transform.rotation == old(self).transform.rotation,
            final(self).mesh == old(self).mesh,
    {
        self.transform.scale = scale;
    }
}

impl Default for Entity {
    /// See [`Entity::new`].
    fn default() -> (r: Entity)
        ensures
            r.transform == Transform::spec_identity(),
            r.mesh is None,
    {
        Entity::new()
    }
}

/// The camera: a position, Euler angles and a field of view, all in
/// fixed point or thousandths of a degree. The embedding derives the
/// basis vectors and view matrix from these.
#[derive(Clone, Copy, Debug, PartialEq, Eq, Structural)]
pub struct Camera {
    pub position: Vec3Fx,
    pub yaw_milli: i64,
    pub pitch_milli: i64,
    pub fov_milli: i64,
}

impl Camera {
    /// A camera at the given position, looking down the negative z
    /// axis with a forty-five degree field of view.
    pub fn new(x: i64, y: i64, z: i64) -> (r: Camera)
        ensures
            r == (Camera {
                position: Vec3Fx { x, y, z },
                yaw_milli: -90000i64,
                pitch_milli: 0i64,
                fov_milli: 45000i64,
            }),
    {
        Camera { position: Vec3Fx { x, y, z }, yaw_milli: -90000, pitch_milli: 0, fov_milli: 45000 }
    }

    /// The position.
    pub fn get_position(&self) -> (r: Vec3Fx)
        ensures
            r == self.position,
    {
        self.position
    }

    /// Move the camera.
    pub fn set_position(&mut self, position: Vec3Fx)
        ensures
            *final(self) == (Camera { position, ..*old(self) }),
    {
        self.position = position;
    }

    /// The field of view in thousandths of a degree.
    pub fn get_fov(&self) -> (r: i64)
        ensures
            r == self.fov_milli,
    {
        self.fov_milli
    }

    /// Set the field of view.
    pub fn set_fov(&mut self, fov_milli: i64)
        ensures
            *final(self) == (Camera { fov_milli, ..*old(self) }),
    {
        self.fov_milli = fov_milli;
    }

    /// Yaw and pitch, in thousandths of a degree.
    pub fn get_yaw_pitch(&self) -> (r: (i64, i64))
        ensures
            r == (self.yaw_milli, self.pitch_milli),
    {
        (self.yaw_milli, self.pitch_milli)
    }

    /// Set yaw and pitch directly.
    pub fn set_yaw_pitch(&mut self, yaw_milli: i64, pitch_milli: i64)
        ensures
            *final(self) == (Camera { yaw_milli, pitch_milli, ..*old(self) }),
    {
        self.yaw_milli = yaw_milli;
        self.pitch_milli = pitch_milli;
    }
}

/// The two kinds of light.
#[derive(Clone, Copy, Debug, PartialEq, Eq, Structural)]
pub enum LightType {
    Point,
    Directional,
}

/// One light. For a directional light the position field holds the
/// direction instead, and the radius is unused.
#[derive(Clone, Copy, Debug, PartialEq, Eq, Structural)]
pub struct Light {
    pub position: Vec3Fx,
    pub color: Vec3Fx,
    pub radius_milli: i64,
    pub light_type: LightType,
}

impl Light {
    /// Radius within the range the attenuation arithmetic supports.
    pub open spec fn wf(self) -> bool {
        0 <= self.radius_milli <= MAX_RADIUS_MILLI
    }

    /// A light of the given color (thousandths per channel), radius
    /// (thousandths) and kind, at the origin.
    pub fn new(r: i64, g: i64, b: i64, radius_milli: i64, light_type: LightType) -> (l: Light)
        requires
            0 <= radius_milli <= MAX_RADIUS_MILLI,
        ensures
            l == (Light {
                position: Vec3Fx { x: 0, y: 0, z: 0 },
                color: Vec3Fx { x: r, y: g, z: b },
                radius_milli,
                light_type,
            }),
            l.wf(),
    {
        Light {
            position: Vec3Fx::zero(),
            color: Vec3Fx { x: r, y: g, z: b },
            radius_milli,
            light_type,
        }
    }

    /// A point light at the origin.
    pub fn point(r: i64, g: i64, b: i64, radius_milli: i64) -> (l: Light)
        requires
            0 <= radius_milli <= MAX_RADIUS_MILLI,
        ensures
            l == Light::spec_point(r, g, b, radius_milli),
            l.wf(),
    {
        Light::new(r, g, b, radius_milli, LightType::Point)
    }

    /// See [`Light::point`].
    pub open spec fn spec_point(r: i64, g: i64, b: i64, radius_milli: i64) -> Light {
        Light {
            position: Vec3Fx { x: 0, y: 0, z: 0 },
            color: Vec3Fx { x: r, y: g, z: b },
            radius_milli,
            light_type: LightType::Point,
        }
    }

    /// A directional light; the caller sets a non-zero direction
    /// through the position field. The radius is unused and zero.
    pub fn directional(r: i64, g: i64, b: i64) -> (l: Light)
        ensures
            l == Light::spec_directional(r, g, b),
            l.wf(),
    {
        Light::new(r, g, b, 0, LightType::Directional)
    }

    /// See [`Light::directional`].
    pub open spec fn spec_directional(r: i64, g: i64, b: i64) -> Light {
        Light {
            position: Vec3Fx { x: 0, y: 0, z: 0 },
            color: Vec3Fx { x: r, y: g, z: b },
            radius_milli: 0,
            light_type: LightType::Directional,
        }
    }

    /// The position (the direction, for a directional light).
    pub fn get_position(&self) -> (r: Vec3Fx)
        ensures
            r == self.position,
    {
        self.position
    }

    /// Move the light (set the direction, for a directional light).
    pub fn set_position(&mut self, position: Vec3Fx)
        ensures
            *final(self) == (Light { position, ..*old(self) }),
    {
        self.position = position;
    }

    /// The color in thousandths per channel.
    pub fn get_color(&self) -> (r: Vec3Fx)
        ensures
            r == self.color,
    {
        self.color
    }

    /// Recolor the light.
    pub fn set_color(&mut self, color: Vec3Fx)
        ensures
            *final(self) == (Light { color, ..*old(self) }),
    {
        self.color = color;
    }
}

/// The scene: ordered entities and ordered lights, read by the
/// pipeline as snapshots each frame.
pub struct Scene {
    pub entities: Vec<Entity>,
    pub lights: Vec<Light>,
}

impl Scene {
    /// Every light's radius in range.
    pub open spec fn wf(self) -> bool {
        forall|i: int| 0 <= i < self.lights@.len() ==> #[trigger] self.lights@[i].wf()
    }

    /// An empty scene.
    pub fn new() -> (r: Scene)
        ensures
            r.entities@.len() == 0,
            r.lights@.len() == 0,
            r.wf(),
    {
        Scene { entities: Vec::new(), lights: Vec::new() }
    }

    /// Append an entity; the order of entities is the draw order.
    pub fn add_entity(&mut self, entity: Entity)
        ensures
            final(self).entities@ == old(self).entities@.push(entity),
            final(self).lights == old(self).lights,
            old(self).wf() ==> final(self).wf(),
    {
        self.entities.push(entity);
    }

    /// Append a light; the order of lights is the uniform order.
    pub fn add_light(&mut self, light: Light)
        requires
            light.wf(),
        ensures
            final(self).lights@ == old(self).lights@.push(light),
            final(self).entities == old(self).entities,
            old(self).wf() ==> final(self).wf(),
    {
        self.lights.push(light);
    }
}

impl Default for Scene {
    /// See [`Scene::new`].
    fn default() -> (r: Scene)
        ensures
            r.entities@.len() == 0,
            r.lights@.len() == 0,
            r.wf(),
    {
        Scene::new()
    }
}

} // verus!
