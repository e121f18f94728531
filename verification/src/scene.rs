//! A scene as a pass reads it: the entities with their components, the loaded
//! assets, and what holds for the scene as a whole.

use crate::light::{Light, Rgba};
use crate::math::Matrix4;
use crate::mesh::{Mesh, MeshView};
use crate::mtl::{spec_texture, Material, MaterialDefaults, Texture};
use vstd::prelude::*;

verus! {

/// A camera: how it projects what it sees.
#[derive(Clone, Copy, Debug, PartialEq, Eq)]
pub struct Camera {
    pub proj: Matrix4,
}

/// The matrices of the joints of a skinned entity, in the order of the joints.
#[derive(Clone, Debug, PartialEq, Eq)]
pub struct JointTransforms {
    pub matrices: Vec<Matrix4>,
}

/// The components of one entity. An entity is known by its position in
/// [`Scene::entities`], and entities are visited in that order.
#[derive(Clone, Debug, PartialEq, Eq)]
pub struct Entity {
    pub camera: Option<Camera>,
    /// The transform of the entity into the world.
    pub transform: Option<Matrix4>,
    pub light: Option<Light>,
    /// The handle of the entity's mesh in [`Scene::meshes`].
    pub mesh: Option<usize>,
    pub material: Option<Material>,
    pub joints: Option<JointTransforms>,
}

/// What an [`Entity`] stands for.
pub ghost struct EntityView {
    pub camera: Option<Camera>,
    pub transform: Option<Matrix4>,
    pub light: Option<Light>,
    pub mesh: Option<usize>,
    pub material: Option<Material>,
    pub joints: Option<Seq<Matrix4>>,
}

impl View for Entity {
    type V = EntityView;

    open spec fn view(&self) -> EntityView {
        EntityView {
            camera: self.camera,
            transform: self.transform,
            light: self.light,
            mesh: self.mesh,
            material: self.material,
            joints: match self.joints {
                Some(j) => Some(j.matrices@),
                None => None,
            },
        }
    }
}

/// All that a pass reads of a scene in one frame.
#[derive(Clone, Debug, PartialEq, Eq)]
pub struct Scene {
    /// The entity that the scene names as its camera, if it names one.
    pub active_camera: Option<usize>,
    pub entities: Vec<Entity>,
    pub ambient: Rgba,
    /// The mesh storage: under each handle a mesh, or `None` while it is not
    /// loaded.
    pub meshes: Vec<Option<Mesh>>,
    /// The texture storage: under each handle a texture, or `None` while it is
    /// not loaded.
    pub textures: Vec<Option<Texture>>,
    pub defaults: MaterialDefaults,
}

/// What a [`Scene`] stands for.
pub ghost struct SceneView {
    pub active_camera: Option<usize>,
    pub entities: Seq<EntityView>,
    pub ambient: Rgba,
    pub meshes: Seq<Option<MeshView>>,
    pub textures: Seq<Option<Texture>>,
    pub defaults: Material,
}

/// What a stored mesh stands for.
pub open spec fn stored_mesh_view(mesh: Option<Mesh>) -> Option<MeshView> {
    match mesh {
        Some(m) => Some(m@),
        None => None,
    }
}

impl View for Scene {
    type V = SceneView;

    open spec fn view(&self) -> SceneView {
        SceneView {
            active_camera: self.active_camera,
            entities: self.entities@.map_values(|e: Entity| e@),
            ambient: self.ambient,
            meshes: self.meshes@.map_values(|m: Option<Mesh>| stored_mesh_view(m)),
            textures: self.textures@,
            defaults: self.defaults.0,
        }
    }
}

impl SceneView {
    /// The mesh under a handle: the one stored there, if the handle is within the
    /// storage and its mesh is loaded.
    pub open spec fn mesh(self, handle: usize) -> Option<MeshView> {
        if handle < self.meshes.len() {
            self.meshes[handle as int]
        } else {
            None
        }
    }

    /// The texture under a handle, if one is loaded there.
    pub open spec fn texture(self, handle: usize) -> Option<Texture> {
        spec_texture(self.textures, handle)
    }
}

impl Scene {
    /// Looks a mesh up by its handle; `None` where the handle is outside the
    /// storage or its mesh is not loaded.
    pub fn mesh(&self, handle: usize) -> (found: Option<&Mesh>)
        ensures
            match found {
                Some(m) => self@.mesh(handle) == Some(m@),
                None => self@.mesh(handle) is None,
            },
    {
        if handle < self.meshes.len() {
            self.meshes[handle].as_ref()
        } else {
            None
        }
    }
}

} // verus!
