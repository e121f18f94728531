//! What holds of every frame and of every compiled pipeline.

use crate::cam::lemma_camera_has_viewpoint;
use crate::math::{Matrix4, Vector3};
use crate::mtl::Material;
use crate::pipe::Linkage;
use crate::scene::SceneView;
use crate::search::lemma_first_index;
use crate::shaded::frame::DrawCallView;
use crate::shaded::layout::{
    LayoutView, MAX_DIRECTIONAL_LIGHTS, MAX_JOINTS, MAX_POINT_LIGHTS,
};
use crate::shaded::lights::{directional_lights, point_lights};
use crate::shaded::separate::{lemma_separate_collision_free, spec_separate_layout};
use crate::vertex::{spec_joint_ids, spec_joint_weights};
use vstd::prelude::*;

verus! {

/// Where the scene has no more lights of a kind than the shader has room for,
/// the frame uploads every light of that kind, in the order of the entities,
/// and reports exactly how many there are.
pub proof fn theorem_light_counts_within_capacity(
    scene: SceneView,
    layout: LayoutView,
    inverse: Option<Matrix4>,
)
    ensures
        scene.frame(layout, inverse) matches Ok(frame) ==> {
            &&& point_lights(scene.entities).len() <= MAX_POINT_LIGHTS ==> {
                &&& frame.point_lights == point_lights(scene.entities)
                &&& frame.fragment_args.point_light_count == point_lights(scene.entities).len()
            }
            &&& directional_lights(scene.entities).len() <= MAX_DIRECTIONAL_LIGHTS ==> {
                &&& frame.directional_lights == directional_lights(scene.entities)
                &&& frame.fragment_args.directional_light_count == directional_lights(
                    scene.entities,
                ).len()
            }
        },
{
}

/// Where the scene has more lights of a kind than the shader has room for, the
/// frame uploads the first of them, as many as there is room for, and reports
/// that number and not the number of lights in the scene.
pub proof fn theorem_light_counts_beyond_capacity(
    scene: SceneView,
    layout: LayoutView,
    inverse: Option<Matrix4>,
)
    ensures
        scene.frame(layout, inverse) matches Ok(frame) ==> {
            &&& point_lights(scene.entities).len() > MAX_POINT_LIGHTS ==> {
                &&& frame.point_lights == point_lights(scene.entities).take(
                    MAX_POINT_LIGHTS as int,
                )
                &&& frame.point_lights.len() == MAX_POINT_LIGHTS
                &&& frame.fragment_args.point_light_count == MAX_POINT_LIGHTS
            }
            &&& directional_lights(scene.entities).len() > MAX_DIRECTIONAL_LIGHTS ==> {
                &&& frame.directional_lights == directional_lights(scene.entities).take(
                    MAX_DIRECTIONAL_LIGHTS as int,
                )
                &&& frame.directional_lights.len() == MAX_DIRECTIONAL_LIGHTS
                &&& frame.fragment_args.directional_light_count == MAX_DIRECTIONAL_LIGHTS
            }
        },
{
}

/// Whether the draw calls are those of the eligible entities below `n`: every
/// call draws an eligible entity below `n`, every such entity has a call, and
/// the calls come in the order of the entities.
pub open spec fn draws_cover(
    scene: SceneView,
    layout: LayoutView,
    draws: Seq<DrawCallView>,
    n: int,
) -> bool {
    &&& forall|k: int|
        0 <= k < draws.len() ==> 0 <= (#[trigger] draws[k]).entity < n && scene.eligible(
            layout,
            draws[k].entity,
        )
    &&& forall|e: int|
        0 <= e < n && #[trigger] scene.eligible(layout, e) ==> exists|k: int|
            0 <= k < draws.len() && (#[trigger] draws[k]).entity == e
    &&& forall|j: int, k: int|
        0 <= j < k < draws.len() ==> (#[trigger] draws[j]).entity < (#[trigger] draws[k]).entity
}

/// The draw calls of the first `n` entities are those of the eligible entities
/// among them, each as [`SceneView::draw_call`] gives it.
pub proof fn lemma_draws_cover(
    scene: SceneView,
    layout: LayoutView,
    inverse: Option<Matrix4>,
    n: int,
)
    requires
        n <= scene.entities.len(),
    ensures
        scene.draws(layout, inverse, n) matches Ok(draws) ==> {
            &&& draws_cover(scene, layout, draws, n)
            &&& forall|k: int|
                0 <= k < draws.len() ==> #[trigger] draws[k] == scene.draw_call(
                    layout,
                    inverse,
                    draws[k].entity,
                ) && scene.fault(inverse, draws[k].entity) is None
        },
    decreases n,
{
    if n > 0 {
        lemma_draws_cover(scene, layout, inverse, n - 1);
        if let Ok(draws) = scene.draws(layout, inverse, n) {
            let before = scene.draws(layout, inverse, n - 1).unwrap();
            if scene.eligible(layout, n - 1) {
                let call = scene.draw_call(layout, inverse, n - 1);
                assert(draws == before.push(call));
                assert(draws[before.len() as int] == call);
                assert forall|e: int| 0 <= e < n && #[trigger] scene.eligible(layout, e) implies exists|
                    k: int,
                | 0 <= k < draws.len() && (#[trigger] draws[k]).entity == e by {
                    if e < n - 1 {
                        let k = choose|k: int|
                            0 <= k < before.len() && (#[trigger] before[k]).entity == e;
                        assert(draws[k].entity == e);
                    } else {
                        assert(draws[before.len() as int].entity == e);
                    }
                }
            } else {
                assert(draws == before);
            }
        }
    }
}

/// An entity is drawn exactly where it is eligible: where it has a mesh, a
/// material and a transform, and its mesh is loaded and has a buffer for every
/// slot of the layout. An entity whose mesh lacks a buffer has no draw call,
/// and every eligible entity has exactly one; the calls come in the order of
/// the entities.
pub proof fn theorem_draws_are_the_eligible_entities(
    scene: SceneView,
    layout: LayoutView,
    inverse: Option<Matrix4>,
)
    ensures
        scene.frame(layout, inverse) matches Ok(frame) ==> {
            &&& draws_cover(scene, layout, frame.draws, scene.entities.len() as int)
            &&& forall|e: int, k: int|
                !#[trigger] scene.eligible(layout, e) && 0 <= k < frame.draws.len() ==> (
                #[trigger] frame.draws[k]).entity != e
            &&& forall|j: int, k: int|
                0 <= j < frame.draws.len() && 0 <= k < frame.draws.len() && (
                #[trigger] frame.draws[j]).entity == (#[trigger] frame.draws[k]).entity ==> j
                    == k
        },
{
    lemma_draws_cover(scene, layout, inverse, scene.entities.len() as int);
    if let Ok(frame) = scene.frame(layout, inverse) {
        assert forall|j: int, k: int|
            0 <= j < frame.draws.len() && 0 <= k < frame.draws.len() && (
            #[trigger] frame.draws[j]).entity == (#[trigger] frame.draws[k]).entity implies j
            == k by {
            if j < k {
                assert(frame.draws[j].entity < frame.draws[k].entity);
            } else if k < j {
                assert(frame.draws[k].entity < frame.draws[j].entity);
            }
        }
    }
}

/// The camera of a frame. Where the scene names an entity as its camera and
/// that entity has both a camera and a transform, it is the camera. Else the
/// first entity that has both is. Where no entity has both, there is none.
pub proof fn theorem_camera_choice(scene: SceneView)
    ensures
        scene.active_viewpoint() ==> scene.camera() == Some(
            scene.active_camera.unwrap() as int,
        ),
        !scene.active_viewpoint() ==> match scene.camera() {
            Some(c) => scene.has_viewpoint(c) && forall|e: int|
                0 <= e < c ==> !#[trigger] scene.has_viewpoint(e),
            None => forall|e: int| !#[trigger] scene.has_viewpoint(e),
        },
{
    let p = |e: int| scene.has_viewpoint(e);
    lemma_first_index(scene.entities.len() as int, p);
    if !scene.active_viewpoint() {
        match scene.camera() {
            Some(c) => {
                assert forall|e: int| 0 <= e < c implies !#[trigger] scene.has_viewpoint(e) by {
                    assert(!p(e));
                }
            },
            None => {
                assert forall|e: int| !#[trigger] scene.has_viewpoint(e) by {
                    if 0 <= e < scene.entities.len() {
                        assert(!p(e));
                    }
                }
            },
        }
    }
}

/// Every draw call of a frame is seen through the camera of the frame: with a
/// camera, the projection is that of the camera, the view is the inverse that
/// the caller handed in, and the reported position is where the transform of
/// the camera puts the origin. Without a camera, projection and view are the
/// identity and the reported position is the origin. The model matrix is the
/// transform of the entity that is drawn.
pub proof fn theorem_camera_in_frame(
    scene: SceneView,
    layout: LayoutView,
    inverse: Option<Matrix4>,
)
    ensures
        scene.frame(layout, inverse) matches Ok(frame) ==> match scene.camera() {
            Some(c) => {
                &&& scene.has_viewpoint(c)
                &&& frame.camera_position == scene.entities[c].transform.unwrap().spec_translation()
                &&& forall|k: int|
                    0 <= k < frame.draws.len() ==> {
                        &&& inverse is Some
                        &&& (#[trigger] frame.draws[k]).vertex_args.proj
                            == scene.entities[c].camera.unwrap().proj
                        &&& frame.draws[k].vertex_args.view == inverse.unwrap()
                        &&& frame.draws[k].vertex_args.model
                            == scene.entities[frame.draws[k].entity].transform.unwrap()
                    }
            },
            None => {
                &&& frame.camera_position == Vector3 { x: 0, y: 0, z: 0 }
                &&& forall|k: int|
                    0 <= k < frame.draws.len() ==> {
                        &&& (#[trigger] frame.draws[k]).vertex_args.proj
                            == Matrix4::spec_identity()
                        &&& frame.draws[k].vertex_args.view == Matrix4::spec_identity()
                        &&& frame.draws[k].vertex_args.model
                            == scene.entities[frame.draws[k].entity].transform.unwrap()
                    }
            },
        },
{
    lemma_camera_has_viewpoint(scene);
    lemma_draws_cover(scene, layout, inverse, scene.entities.len() as int);
}

/// Every draw call binds the textures of the material of its entity where they
/// are loaded, and the default textures of the scene where they are not.
pub proof fn theorem_material_fallback(
    scene: SceneView,
    layout: LayoutView,
    inverse: Option<Matrix4>,
)
    ensures
        scene.frame(layout, inverse) matches Ok(frame) ==> forall|k: int|
            0 <= k < frame.draws.len() ==> {
                let call = #[trigger] frame.draws[k];
                let material = scene.entities[call.entity].material.unwrap();
                &&& scene.texture(material.albedo) is Some ==> Some(call.albedo) == scene.texture(
                    material.albedo,
                )
                &&& scene.texture(material.albedo) is None ==> Some(call.albedo) == scene.texture(
                    scene.defaults.albedo,
                )
                &&& scene.texture(material.emission) is Some ==> Some(call.emission)
                    == scene.texture(material.emission)
                &&& scene.texture(material.emission) is None ==> Some(call.emission)
                    == scene.texture(scene.defaults.emission)
            },
{
    lemma_draws_cover(scene, layout, inverse, scene.entities.len() as int);
}

/// Two scenes that differ in nothing but their default material draw the same
/// entities; where the albedo of the material of a drawn entity is not loaded,
/// each scene binds its own default albedo for it, and likewise its own default
/// emission.
pub proof fn theorem_default_material_decides(
    scene: SceneView,
    other: Material,
    layout: LayoutView,
    inverse: Option<Matrix4>,
)
    ensures
        ({
            let changed = SceneView { defaults: other, ..scene };
            scene.frame(layout, inverse) matches Ok(a) ==> (changed.frame(
                layout,
                inverse,
            ) matches Ok(b) ==> {
                &&& a.draws.len() == b.draws.len()
                &&& forall|k: int|
                    0 <= k < a.draws.len() ==> {
                        let e = (#[trigger] a.draws[k]).entity;
                        let material = scene.entities[e].material.unwrap();
                        &&& b.draws[k].entity == e
                        &&& scene.texture(material.albedo) is None ==> {
                            &&& Some(a.draws[k].albedo) == scene.texture(scene.defaults.albedo)
                            &&& Some(b.draws[k].albedo) == scene.texture(other.albedo)
                        }
                        &&& scene.texture(material.emission) is None ==> {
                            &&& Some(a.draws[k].emission) == scene.texture(
                                scene.defaults.emission,
                            )
                            &&& Some(b.draws[k].emission) == scene.texture(other.emission)
                        }
                    }
            })
        }),
{
    let changed = SceneView { defaults: other, ..scene };
    let n = scene.entities.len() as int;
    lemma_draws_cover(scene, layout, inverse, n);
    lemma_draws_cover(changed, layout, inverse, n);
    if scene.frame(layout, inverse) is Ok && changed.frame(layout, inverse) is Ok {
        lemma_same_entities(scene, changed, layout, inverse, n);
        let a = scene.draws(layout, inverse, n).unwrap();
        let b = changed.draws(layout, inverse, n).unwrap();
        assert(scene.frame(layout, inverse).unwrap().draws == a);
        assert(changed.frame(layout, inverse).unwrap().draws == b);
        assert forall|k: int| 0 <= k < a.len() implies {
            let e = (#[trigger] a[k]).entity;
            let material = scene.entities[e].material.unwrap();
            &&& b[k].entity == e
            &&& scene.texture(material.albedo) is None ==> {
                &&& Some(a[k].albedo) == scene.texture(scene.defaults.albedo)
                &&& Some(b[k].albedo) == scene.texture(other.albedo)
            }
            &&& scene.texture(material.emission) is None ==> {
                &&& Some(a[k].emission) == scene.texture(scene.defaults.emission)
                &&& Some(b[k].emission) == scene.texture(other.emission)
            }
        } by {
            let e = a[k].entity;
            assert(b[k].entity == e);
            assert(a[k] == scene.draw_call(layout, inverse, e));
            assert(b[k] == changed.draw_call(layout, inverse, e));
            assert(scene.fault(inverse, e) is None);
            assert(changed.fault(inverse, e) is None);
        }
    }
}

/// Two scenes with the same entities and the same meshes draw the same entities
/// in the same order, where neither gives its frame up.
pub proof fn lemma_same_entities(
    a: SceneView,
    b: SceneView,
    layout: LayoutView,
    inverse: Option<Matrix4>,
    n: int,
)
    requires
        a.entities == b.entities,
        a.meshes == b.meshes,
        n <= a.entities.len(),
        a.draws(layout, inverse, n) is Ok,
        b.draws(layout, inverse, n) is Ok,
    ensures
        ({
            let x = a.draws(layout, inverse, n).unwrap();
            let y = b.draws(layout, inverse, n).unwrap();
            &&& x.len() == y.len()
            &&& forall|k: int| 0 <= k < x.len() ==> (#[trigger] x[k]).entity == y[k].entity
        }),
    decreases n,
{
    if n > 0 {
        lemma_same_entities(a, b, layout, inverse, n - 1);
        assert(a.eligible(layout, n - 1) == b.eligible(layout, n - 1));
    }
}

/// What a frame uploads fits what the pipeline of the same layout declares:
/// no more lights of a kind than the block of that kind has room for, no more
/// joint matrices than the shader has room for, and for every draw call as many
/// vertex buffers as the pipeline has slots.
pub proof fn theorem_frame_fits_pipeline(
    scene: SceneView,
    layout: LayoutView,
    inverse: Option<Matrix4>,
)
    ensures
        scene.frame(layout, inverse) matches Ok(frame) ==> {
            &&& frame.point_lights.len() <= MAX_POINT_LIGHTS
            &&& frame.directional_lights.len() <= MAX_DIRECTIONAL_LIGHTS
            &&& layout.descriptor().constant_buffers[2].name == "PointLights"@
            &&& layout.descriptor().constant_buffers[2].capacity == MAX_POINT_LIGHTS
            &&& layout.descriptor().constant_buffers[3].name == "DirectionalLights"@
            &&& layout.descriptor().constant_buffers[3].capacity == MAX_DIRECTIONAL_LIGHTS
            &&& forall|k: int|
                0 <= k < frame.draws.len() ==> {
                    &&& (#[trigger] frame.draws[k]).vertex_buffers.len()
                        == layout.descriptor().vertex_buffers.len()
                    &&& frame.draws[k].joint_transforms matches Some(j) ==> j.len() <= MAX_JOINTS
                }
        },
{
    lemma_draws_cover(scene, layout, inverse, scene.entities.len() as int);
}

/// Joints are a matter of the layout alone. The pipeline of a layout declares
/// the block `JointTransforms` where the layout is skinned and not otherwise.
/// A frame of a skinned layout uploads the joints of every drawn entity that
/// has joints; a frame of another layout uploads no joints, whatever the
/// entities hold.
pub proof fn theorem_joints_follow_the_layout(
    scene: SceneView,
    layout: LayoutView,
    inverse: Option<Matrix4>,
)
    ensures
        layout.descriptor().declares_block("JointTransforms"@) <==> layout.skinning,
        scene.frame(layout, inverse) matches Ok(frame) ==> forall|k: int|
            0 <= k < frame.draws.len() ==> ((#[trigger] frame.draws[k]).joint_transforms is Some
                <==> layout.skinning && scene.entities[frame.draws[k].entity].joints is Some),
{
    lemma_draws_cover(scene, layout, inverse, scene.entities.len() as int);
    reveal_strlit("VertexArgs");
    reveal_strlit("FragmentArgs");
    reveal_strlit("PointLights");
    reveal_strlit("DirectionalLights");
    reveal_strlit("JointTransforms");
    let blocks = layout.descriptor().constant_buffers;
    assert(blocks[0].name.len() == 10);
    assert(blocks[1].name.len() == 12);
    assert(blocks[2].name.len() == 11);
    assert(blocks[3].name.len() == 17);
    if layout.skinning {
        assert(blocks[4].name == "JointTransforms"@);
    }
}

/// A pass over separate buffers with vertex skinning declares, after the
/// buffers for position, normal and texture coordinate, one for joint ids and
/// one for joint weights, and binds all five for every draw call. Without
/// vertex skinning it declares and binds the first three and nothing of joints.
/// With a linked program it compiles in both forms.
pub proof fn theorem_separate_layouts(
    skinning: bool,
    scene: SceneView,
    inverse: Option<Matrix4>,
)
    ensures
        ({
            let layout = spec_separate_layout(skinning);
            let pipeline = layout.descriptor();
            &&& layout.compiled(Linkage::Linked) == Ok::<_, crate::error::Error>(pipeline)
            &&& pipeline.vertex_buffers.len() == if skinning {
                5int
            } else {
                3int
            }
            &&& skinning ==> pipeline.vertex_buffers[3].attributes == seq![spec_joint_ids(0)]
                && pipeline.vertex_buffers[4].attributes == seq![spec_joint_weights(0)]
            &&& pipeline.declares_block("JointTransforms"@) <==> skinning
            &&& scene.frame(layout, inverse) matches Ok(frame) ==> forall|k: int|
                0 <= k < frame.draws.len() ==> {
                    &&& (#[trigger] frame.draws[k]).vertex_buffers.len()
                        == pipeline.vertex_buffers.len()
                    &&& !skinning ==> frame.draws[k].joint_transforms is None
                }
        }),
{
    let layout = spec_separate_layout(skinning);
    lemma_separate_collision_free(skinning);
    theorem_joints_follow_the_layout(scene, layout, inverse);
    theorem_frame_fits_pipeline(scene, layout, inverse);
}

} // verus!
