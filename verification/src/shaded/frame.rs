//! What a shaded pass draws in one frame.

use crate::error::{Error, FatalError};
use crate::light::{DirectionalLightPod, PointLightPod};
use crate::math::{Matrix4, Vector3};
use crate::mesh::{Mesh, MeshView, Slice};
use crate::mtl::{resolve, spec_resolve, Texture, TextureSlot};
use crate::scene::{JointTransforms, Scene, SceneView};
use crate::shaded::layout::{
    LayoutView, VertexLayout, MAX_DIRECTIONAL_LIGHTS, MAX_JOINTS, MAX_POINT_LIGHTS,
};
use crate::shaded::lights::{capped, directional_lights, pack_lights, point_lights};
use vstd::prelude::*;

verus! {

/// The constants of one draw call: the projection and the view of the camera
/// and the transform of the entity.
#[derive(Clone, Copy, Debug, PartialEq, Eq)]
pub struct VertexArgs {
    pub proj: Matrix4,
    pub view: Matrix4,
    pub model: Matrix4,
}

/// The constants of one frame: how many lights of each kind were uploaded.
#[derive(Clone, Copy, Debug, PartialEq, Eq)]
pub struct FragmentArgs {
    pub point_light_count: i32,
    pub directional_light_count: i32,
}

/// One draw call with all that is uploaded and bound for it. Nothing bound for
/// one draw call stays bound for the next.
#[derive(Clone, Debug, PartialEq, Eq)]
pub struct DrawCall {
    /// The entity that is drawn.
    pub entity: usize,
    pub vertex_args: VertexArgs,
    /// The joint matrices to upload, where the pass is skinned and the entity
    /// has joints.
    pub joint_transforms: Option<Vec<Matrix4>>,
    pub emission: Texture,
    pub albedo: Texture,
    /// The numbers of the vertex buffers to bind, in the order of the layout.
    pub vertex_buffers: Vec<u32>,
    pub slice: Slice,
}

/// What a [`DrawCall`] stands for.
pub ghost struct DrawCallView {
    pub entity: int,
    pub vertex_args: VertexArgs,
    pub joint_transforms: Option<Seq<Matrix4>>,
    pub emission: Texture,
    pub albedo: Texture,
    pub vertex_buffers: Seq<u32>,
    pub slice: Slice,
}

impl View for DrawCall {
    type V = DrawCallView;

    open spec fn view(&self) -> DrawCallView {
        DrawCallView {
            entity: self.entity as int,
            vertex_args: self.vertex_args,
            joint_transforms: match self.joint_transforms {
                Some(j) => Some(j@),
                None => None,
            },
            emission: self.emission,
            albedo: self.albedo,
            vertex_buffers: self.vertex_buffers@,
            slice: self.slice,
        }
    }
}

/// One frame of a shaded pass: what is uploaded once, and the draw calls in the
/// order in which they are issued.
#[derive(Clone, Debug, PartialEq, Eq)]
pub struct Frame {
    pub ambient_color: Vector3,
    pub camera_position: Vector3,
    pub fragment_args: FragmentArgs,
    pub point_lights: Vec<PointLightPod>,
    pub directional_lights: Vec<DirectionalLightPod>,
    pub draws: Vec<DrawCall>,
}

/// What a [`Frame`] stands for.
pub ghost struct FrameView {
    pub ambient_color: Vector3,
    pub camera_position: Vector3,
    pub fragment_args: FragmentArgs,
    pub point_lights: Seq<PointLightPod>,
    pub directional_lights: Seq<DirectionalLightPod>,
    pub draws: Seq<DrawCallView>,
}

/// The draw calls of a list, each by its view.
pub open spec fn draw_views(draws: Seq<DrawCall>) -> Seq<DrawCallView> {
    draws.map_values(|d: DrawCall| d@)
}

impl View for Frame {
    type V = FrameView;

    open spec fn view(&self) -> FrameView {
        FrameView {
            ambient_color: self.ambient_color,
            camera_position: self.camera_position,
            fragment_args: self.fragment_args,
            point_lights: self.point_lights@,
            directional_lights: self.directional_lights@,
            draws: draw_views(self.draws@),
        }
    }
}

/// A frame, or the error for which it was given up, as what it stands for.
pub open spec fn frame_outcome(r: Result<Frame, Error>) -> Result<FrameView, Error> {
    match r {
        Ok(f) => Ok(f@),
        Err(e) => Err(e),
    }
}

impl MeshView {
    /// Whether the mesh has a buffer for every slot of the layout.
    pub open spec fn fits(self, layout: LayoutView) -> bool {
        forall|k: int|
            0 <= k < layout.buffers.len() ==> self.buffer(
                (#[trigger] layout.buffers[k]).attributes,
            ) is Some
    }

    /// The numbers of the buffers of the mesh that fill the slots of the layout,
    /// slot by slot.
    pub open spec fn bound(self, layout: LayoutView) -> Seq<u32> {
        Seq::new(
            layout.buffers.len(),
            |k: int| self.buffer(layout.buffers[k].attributes).unwrap(),
        )
    }
}

impl SceneView {
    /// Whether the entity is one that a pass looks at: it is in the scene and
    /// has a mesh, a material and a transform.
    pub open spec fn drawable(self, e: int) -> bool {
        &&& 0 <= e < self.entities.len()
        &&& self.entities[e].mesh is Some
        &&& self.entities[e].material is Some
        &&& self.entities[e].transform is Some
    }

    /// The mesh of a drawable entity, where it is loaded.
    pub open spec fn mesh_of(self, e: int) -> Option<MeshView> {
        self.mesh(self.entities[e].mesh.unwrap())
    }

    /// Whether the entity is drawn under the layout: it is drawable, its mesh is
    /// loaded, and the mesh has a buffer for every slot of the layout.
    pub open spec fn eligible(self, layout: LayoutView, e: int) -> bool {
        &&& self.drawable(e)
        &&& self.mesh_of(e) is Some
        &&& self.mesh_of(e).unwrap().fits(layout)
    }

    /// Where the camera of the frame is: the origin as its transform moves it;
    /// the origin itself where the frame has no camera.
    pub open spec fn camera_position(self) -> Vector3 {
        match self.camera() {
            Some(c) => self.entities[c].transform.unwrap().spec_translation(),
            None => Vector3::spec_origin(),
        }
    }

    /// The constants of the draw call of an entity. With a camera: its
    /// projection, and as the view the inverse of its transform that the caller
    /// handed in. Without one: the identity for both.
    pub open spec fn vertex_args(self, inverse: Option<Matrix4>, e: int) -> VertexArgs {
        match self.camera() {
            Some(c) => VertexArgs {
                proj: self.entities[c].camera.unwrap().proj,
                view: inverse.unwrap(),
                model: self.entities[e].transform.unwrap(),
            },
            None => VertexArgs {
                proj: Matrix4::spec_identity(),
                view: Matrix4::spec_identity(),
                model: self.entities[e].transform.unwrap(),
            },
        }
    }

    /// The joint matrices uploaded for an entity: those of the entity, cut to
    /// what the shader has room for, where the layout is skinned and the entity
    /// has joints; none otherwise.
    pub open spec fn joint_upload(self, layout: LayoutView, e: int) -> Option<Seq<Matrix4>> {
        if layout.skinning {
            match self.entities[e].joints {
                Some(j) => Some(capped(j, MAX_JOINTS as nat)),
                None => None,
            }
        } else {
            None
        }
    }

    /// The albedo texture of an entity: its own where that is loaded, else the
    /// default one.
    pub open spec fn albedo_of(self, e: int) -> Option<Texture> {
        spec_resolve(self.textures, self.entities[e].material.unwrap().albedo, self.defaults.albedo)
    }

    /// The emission texture of an entity: its own where that is loaded, else
    /// the default one.
    pub open spec fn emission_of(self, e: int) -> Option<Texture> {
        spec_resolve(
            self.textures,
            self.entities[e].material.unwrap().emission,
            self.defaults.emission,
        )
    }

    /// What keeps an eligible entity from being drawn: a camera whose transform
    /// has no inverse; else an albedo texture that is not loaded while the
    /// default is not loaded either; else the same of the emission texture.
    pub open spec fn fault(self, inverse: Option<Matrix4>, e: int) -> Option<FatalError> {
        if self.camera() is Some && inverse is None {
            Some(FatalError::SingularCamera)
        } else if self.albedo_of(e) is None {
            Some(FatalError::MissingDefault(TextureSlot::Albedo))
        } else if self.emission_of(e) is None {
            Some(FatalError::MissingDefault(TextureSlot::Emission))
        } else {
            None
        }
    }

    /// The draw call of an eligible entity that nothing keeps from being drawn.
    pub open spec fn draw_call(
        self,
        layout: LayoutView,
        inverse: Option<Matrix4>,
        e: int,
    ) -> DrawCallView {
        DrawCallView {
            entity: e,
            vertex_args: self.vertex_args(inverse, e),
            joint_transforms: self.joint_upload(layout, e),
            emission: self.emission_of(e).unwrap(),
            albedo: self.albedo_of(e).unwrap(),
            vertex_buffers: self.mesh_of(e).unwrap().bound(layout),
            slice: self.mesh_of(e).unwrap().slice,
        }
    }

    /// The draw calls of the first `n` entities, in the order of the entities:
    /// one for each eligible entity and none for any other. Where something
    /// keeps an eligible entity from being drawn, the first such fault.
    pub open spec fn draws(self, layout: LayoutView, inverse: Option<Matrix4>, n: int) -> Result<
        Seq<DrawCallView>,
        FatalError,
    >
        decreases n,
    {
        if n <= 0 {
            Ok(Seq::empty())
        } else {
            match self.draws(layout, inverse, n - 1) {
                Err(fault) => Err(fault),
                Ok(before) => if !self.eligible(layout, n - 1) {
                    Ok(before)
                } else {
                    match self.fault(inverse, n - 1) {
                        Some(fault) => Err(fault),
                        None => Ok(before.push(self.draw_call(layout, inverse, n - 1))),
                    }
                },
            }
        }
    }

    /// The point lights as they are uploaded.
    pub open spec fn uploaded_point_lights(self) -> Seq<PointLightPod> {
        capped(point_lights(self.entities), MAX_POINT_LIGHTS as nat)
    }

    /// The directional lights as they are uploaded.
    pub open spec fn uploaded_directional_lights(self) -> Seq<DirectionalLightPod> {
        capped(directional_lights(self.entities), MAX_DIRECTIONAL_LIGHTS as nat)
    }

    /// The frame that a pass of the given layout draws of this scene, where
    /// `inverse` is the inverse of the transform of the camera, or `None` where
    /// that transform has none.
    pub open spec fn frame(self, layout: LayoutView, inverse: Option<Matrix4>) -> Result<
        FrameView,
        Error,
    > {
        match self.draws(layout, inverse, self.entities.len() as int) {
            Err(fault) => Err(Error::FatalConfiguration(fault)),
            Ok(draws) => Ok(
                FrameView {
                    ambient_color: self.ambient.spec_rgb(),
                    camera_position: self.camera_position(),
                    fragment_args: FragmentArgs {
                        point_light_count: self.uploaded_point_lights().len() as i32,
                        directional_light_count: self.uploaded_directional_lights().len() as i32,
                    },
                    point_lights: self.uploaded_point_lights(),
                    directional_lights: self.uploaded_directional_lights(),
                    draws,
                },
            ),
        }
    }
}

/// A fault among the first `n` entities is the fault of every longer run.
pub proof fn lemma_draws_fault_stays(
    scene: SceneView,
    layout: LayoutView,
    inverse: Option<Matrix4>,
    n: int,
    m: int,
)
    requires
        n <= m,
        scene.draws(layout, inverse, n) is Err,
    ensures
        scene.draws(layout, inverse, m) == scene.draws(layout, inverse, n),
    decreases m - n,
{
    if n < m {
        lemma_draws_fault_stays(scene, layout, inverse, n, m - 1);
    }
}

impl Mesh {
    /// Looks up, for every slot of the layout, the buffer of the mesh that fills
    /// it; `None` where the mesh has no buffer for some slot.
    pub fn bind(&self, layout: &VertexLayout) -> (bound: Option<Vec<u32>>)
        ensures
            match bound {
                Some(buffers) => self@.fits(layout@) && buffers@ == self@.bound(layout@),
                None => !self@.fits(layout@),
            },
    {
        let mut buffers: Vec<u32> = Vec::new();
        let mut k: usize = 0;
        while k < layout.buffers.len()
            invariant
                k <= layout.buffers.len(),
                buffers@.len() == k,
                forall|j: int|
                    0 <= j < k ==> self@.buffer((#[trigger] layout@.buffers[j]).attributes)
                        == Some(buffers@[j]),
            decreases layout.buffers.len() - k,
        {
            assert(layout@.buffers[k as int] == layout.buffers@[k as int]@);
            match self.buffer(&layout.buffers[k].attributes) {
                Some(raw) => {
                    buffers.push(raw);
                },
                None => {
                    return None;
                },
            }
            k += 1;
        }
        assert(buffers@ =~= self@.bound(layout@));
        Some(buffers)
    }
}

impl JointTransforms {
    /// The matrices to upload: those of the joints, cut to what the shader has
    /// room for.
    pub fn upload(&self) -> (matrices: Vec<Matrix4>)
        ensures
            matrices@ == capped(self.matrices@, MAX_JOINTS as nat),
    {
        let n = if self.matrices.len() < MAX_JOINTS {
            self.matrices.len()
        } else {
            MAX_JOINTS
        };
        let mut matrices: Vec<Matrix4> = Vec::new();
        let mut k: usize = 0;
        while k < n
            invariant
                k <= n <= self.matrices.len(),
                matrices@ =~= self.matrices@.take(k as int),
            decreases n - k,
        {
            matrices.push(self.matrices[k]);
            k += 1;
        }
        assert(self.matrices@.take(self.matrices@.len() as int) =~= self.matrices@);
        matrices
    }
}

impl Scene {
    /// Whether the entity has a mesh, a material and a transform.
    pub fn drawable(&self, e: usize) -> (drawable: bool)
        ensures
            drawable == self@.drawable(e as int),
    {
        e < self.entities.len() && self.entities[e].mesh.is_some()
            && self.entities[e].material.is_some() && self.entities[e].transform.is_some()
    }

    /// The constants of the draw call of an entity, given the camera of the
    /// frame and the inverse of its transform.
    fn vertex_args(&self, camera: Option<usize>, inverse: Matrix4, e: usize) -> (args:
        VertexArgs)
        requires
            self@.drawable(e as int),
            match camera {
                Some(c) => self@.camera() == Some(c as int),
                None => self@.camera() is None,
            },
        ensures
            args == self@.vertex_args(Some(inverse), e as int),
            self@.camera() is None ==> forall|any: Option<Matrix4>|
                args == self@.vertex_args(any, e as int),
    {
        let model = match self.entities[e].transform {
            Some(m) => m,
            None => Matrix4::identity(),
        };
        match camera {
            Some(c) => {
                proof {
                    crate::cam::lemma_camera_has_viewpoint(self@);
                }
                let proj = match self.entities[c].camera {
                    Some(cam) => cam.proj,
                    None => Matrix4::identity(),
                };
                VertexArgs { proj, view: inverse, model }
            },
            None => VertexArgs { proj: Matrix4::identity(), view: Matrix4::identity(), model },
        }
    }

    /// Where the given camera of the frame is.
    fn camera_position(&self, camera: Option<usize>) -> (position: Vector3)
        requires
            match camera {
                Some(c) => self@.camera() == Some(c as int),
                None => self@.camera() is None,
            },
        ensures
            position == self@.camera_position(),
    {
        match camera {
            Some(c) => {
                proof {
                    crate::cam::lemma_camera_has_viewpoint(self@);
                }
                match self.entities[c].transform {
                    Some(m) => m.translation(),
                    None => Vector3::origin(),
                }
            },
            None => Vector3::origin(),
        }
    }
}

/// Draws one frame of the scene with the given layout.
///
/// `inverse` is the inverse of the transform of the scene's camera (see
/// [`Scene::resolve_camera`]) as the caller computed it, or `None` where that
/// transform has no inverse; it is not read where the scene has no camera.
///
/// The frame holds the ambient colour, the position of the camera, the lights
/// cut to what the shader has room for with their counts, and one draw call for
/// each entity that has a mesh, a material and a transform, whose mesh is loaded
/// and has a buffer for every slot of the layout. Any other entity is passed
/// over. The frame is given up for the first entity to be drawn that needs the
/// inverse where there is none, or a texture where neither its own nor the
/// default is loaded.
pub fn draw_frame(layout: &VertexLayout, scene: &Scene, inverse: Option<Matrix4>) -> (r: Result<
    Frame,
    Error,
>)
    ensures
        frame_outcome(r) == scene@.frame(layout@, inverse),
{
    let camera = scene.resolve_camera();
    let camera_position = scene.camera_position(camera);
    let lights = pack_lights(scene);
    let fragment_args = FragmentArgs {
        point_light_count: lights.point.len() as i32,
        directional_light_count: lights.directional.len() as i32,
    };
    let mut draws: Vec<DrawCall> = Vec::new();
    let mut e: usize = 0;
    assert(draw_views(draws@) =~= Seq::empty());
    while e < scene.entities.len()
        invariant
            e <= scene.entities.len(),
            match camera {
                Some(c) => scene@.camera() == Some(c as int),
                None => scene@.camera() is None,
            },
            scene@.draws(layout@, inverse, e as int) == Ok::<Seq<DrawCallView>, FatalError>(
                draw_views(draws@),
            ),
        decreases scene.entities.len() - e,
    {
        let ghost before = draw_views(draws@);
        proof {
            assert(scene@.entities[e as int] == scene.entities@[e as int]@);
        }
        if scene.drawable(e) {
            let entity = &scene.entities[e];
            let handle = match entity.mesh {
                Some(h) => h,
                None => 0,
            };
            let material = match entity.material {
                Some(m) => m,
                None => scene.defaults.0,
            };
            match scene.mesh(handle) {
                None => {},
                Some(mesh) => {
                    match mesh.bind(layout) {
                        None => {},
                        Some(vertex_buffers) => {
                            assert(scene@.eligible(layout@, e as int));
                            let view = match (camera, inverse) {
                                (Some(_), None) => {
                                    proof {
                                        lemma_draws_fault_stays(
                                            scene@,
                                            layout@,
                                            inverse,
                                            e + 1,
                                            scene@.entities.len() as int,
                                        );
                                    }
                                    return Err(
                                        Error::FatalConfiguration(FatalError::SingularCamera),
                                    );
                                },
                                (_, Some(m)) => m,
                                (None, None) => Matrix4::identity(),
                            };
                            let vertex_args = scene.vertex_args(camera, view, e);
                            let joint_transforms = if layout.skinning {
                                match &entity.joints {
                                    Some(j) => Some(j.upload()),
                                    None => None,
                                }
                            } else {
                                None
                            };
                            let albedo = match resolve(
                                &scene.textures,
                                material.albedo,
                                scene.defaults.0.albedo,
                            ) {
                                Some(t) => t,
                                None => {
                                    proof {
                                        lemma_draws_fault_stays(
                                            scene@,
                                            layout@,
                                            inverse,
                                            e + 1,
                                            scene@.entities.len() as int,
                                        );
                                    }
                                    return Err(
                                        Error::FatalConfiguration(
                                            FatalError::MissingDefault(TextureSlot::Albedo),
                                        ),
                                    );
                                },
                            };
                            let emission = match resolve(
                                &scene.textures,
                                material.emission,
                                scene.defaults.0.emission,
                            ) {
                                Some(t) => t,
                                None => {
                                    proof {
                                        lemma_draws_fault_stays(
                                            scene@,
                                            layout@,
                                            inverse,
                                            e + 1,
                                            scene@.entities.len() as int,
                                        );
                                    }
                                    return Err(
                                        Error::FatalConfiguration(
                                            FatalError::MissingDefault(TextureSlot::Emission),
                                        ),
                                    );
                                },
                            };
                            let call = DrawCall {
                                entity: e,
                                vertex_args,
                                joint_transforms,
                                emission,
                                albedo,
                                vertex_buffers,
                                slice: mesh.slice,
                            };
                            assert(call@ == scene@.draw_call(layout@, inverse, e as int));
                            draws.push(call);
                            assert(draw_views(draws@) =~= before.push(call@));
                        },
                    }
                },
            }
        }
        e += 1;
    }
    Ok(
        Frame {
            ambient_color: scene.ambient.rgb(),
            camera_position,
            fragment_args,
            point_lights: lights.point,
            directional_lights: lights.directional,
            draws,
        },
    )
}

} // verus!
