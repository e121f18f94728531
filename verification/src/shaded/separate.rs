//! The shaded pass for meshes with one vertex buffer for each attribute.

use crate::error::{CompileError, Error};
use crate::math::Matrix4;
use crate::pipe::{
    attribute_names, distinct, Linkage, PipelineDescriptor, ShaderProgram, VertexBufferSlot,
    VertexBufferSlotView,
};
use crate::scene::Scene;
use crate::shaded::frame::{draw_frame, frame_outcome, Frame};
use crate::shaded::layout::{
    lemma_attribute_names_push, lemma_block_names_distinct, pipeline_outcome, LayoutView,
    VertexLayout,
};
use crate::vertex::{
    joint_ids, joint_weights, normal, position, spec_joint_ids, spec_joint_weights, spec_normal,
    spec_position, spec_tex_coord, tex_coord, Attribute, AttributeView,
};
use vstd::prelude::*;

verus! {

/// Draws meshes with simple lighting, each mesh from separate buffers for its
/// positions, normals and texture coordinates and, with vertex skinning, for its
/// joint ids and joint weights.
#[derive(Clone, Debug, PartialEq)]
pub struct DrawShadedSeparate {
    skinning: bool,
}

/// A slot for a buffer that holds one attribute and nothing else.
pub open spec fn spec_single(attribute: AttributeView) -> VertexBufferSlotView {
    VertexBufferSlotView {
        attributes: seq![attribute],
        stride: attribute.format.surface.spec_size() as u8,
        rate: 0,
    }
}

/// A slot for a buffer that holds one attribute and nothing else: its stride is
/// the size of one element of the attribute.
pub fn single(attribute: Attribute) -> (slot: VertexBufferSlot)
    ensures
        slot@ == spec_single(attribute@),
{
    let stride = attribute.format.surface.size() as u8;
    let slot = VertexBufferSlot { attributes: vec![attribute], stride, rate: 0 };
    assert(slot@.attributes =~= seq![attribute@]);
    slot
}

/// The layout of a pass over separate buffers: position, normal and texture
/// coordinate, in this order; with skinning, joint ids and joint weights after
/// them.
pub open spec fn spec_separate_layout(skinning: bool) -> LayoutView {
    let standard = seq![
        spec_single(spec_position(0)),
        spec_single(spec_normal(0)),
        spec_single(spec_tex_coord(0)),
    ];
    LayoutView {
        buffers: if skinning {
            standard.push(spec_single(spec_joint_ids(0))).push(spec_single(spec_joint_weights(0)))
        } else {
            standard
        },
        skinning,
    }
}

/// No two slots of the pipeline of a pass over separate buffers share a name.
pub proof fn lemma_separate_collision_free(skinning: bool)
    ensures
        spec_separate_layout(skinning).descriptor().collision_free(),
{
    let layout = spec_separate_layout(skinning);
    let none = Seq::<VertexBufferSlotView>::empty();
    let p = spec_single(spec_position(0));
    let n = spec_single(spec_normal(0));
    let t = spec_single(spec_tex_coord(0));
    let i = spec_single(spec_joint_ids(0));
    let w = spec_single(spec_joint_weights(0));
    lemma_attribute_names_push(none, p);
    lemma_attribute_names_push(none.push(p), n);
    lemma_attribute_names_push(none.push(p).push(n), t);
    lemma_attribute_names_push(none.push(p).push(n).push(t), i);
    lemma_attribute_names_push(none.push(p).push(n).push(t).push(i), w);
    assert(seq![p, n, t] =~= none.push(p).push(n).push(t));
    reveal_strlit("position");
    reveal_strlit("normal");
    reveal_strlit("tex_coord");
    reveal_strlit("joint_ids");
    reveal_strlit("joint_weights");
    let names = attribute_names(layout.buffers);
    if skinning {
        assert(names =~= seq![
            "position"@,
            "normal"@,
            "tex_coord"@,
            "joint_ids"@,
            "joint_weights"@,
        ]);
    } else {
        assert(names =~= seq!["position"@, "normal"@, "tex_coord"@]);
    }
    assert(names[0].len() == 8);
    assert(names[1].len() == 6);
    assert(names[2].len() == 9);
    assert(names[2][0] == 't');
    if skinning {
        assert(names[3].len() == 9);
        assert(names[3][0] == 'j');
        assert(names[4].len() == 13);
    }
    assert(distinct(names));
    lemma_block_names_distinct(layout);
}

impl DrawShadedSeparate {
    /// Whether the pass moves vertices by their joints.
    pub closed spec fn spec_skinning(self) -> bool {
        self.skinning
    }

    /// The layout of the pass.
    pub open spec fn spec_layout(self) -> LayoutView {
        spec_separate_layout(self.spec_skinning())
    }

    /// Creates the pass, without vertex skinning.
    pub fn new() -> (pass: Self)
        ensures
            !pass.spec_skinning(),
    {
        DrawShadedSeparate { skinning: false }
    }

    /// Enables vertex skinning.
    pub fn with_vertex_skinning(self) -> (pass: Self)
        ensures
            pass.spec_skinning(),
    {
        DrawShadedSeparate { skinning: true }
    }

    /// Whether the pass moves vertices by their joints.
    pub fn skinning(&self) -> (skinning: bool)
        ensures
            skinning == self.spec_skinning(),
    {
        self.skinning
    }

    /// The layout of the pass.
    pub fn layout(&self) -> (layout: VertexLayout)
        ensures
            layout@ == self.spec_layout(),
    {
        let mut buffers = vec![single(position(0)), single(normal(0)), single(tex_coord(0))];
        if self.skinning {
            buffers.push(single(joint_ids(0)));
            buffers.push(single(joint_weights(0)));
        }
        let layout = VertexLayout { buffers, skinning: self.skinning };
        assert(layout@.buffers =~= self.spec_layout().buffers);
        layout
    }

    /// The shader program that the device is to link for the pass: the skinned
    /// vertex shader with vertex skinning, else the basic one; the shaded
    /// fragment shader.
    pub fn program(&self) -> (program: ShaderProgram)
        ensures
            program == self.spec_layout().program(),
    {
        self.layout().program()
    }

    /// Compiles the pipeline of the pass, given what the device said of linking
    /// its program.
    ///
    /// The pipeline declares the vertex buffers of the layout, the constant
    /// buffers `VertexArgs`, `FragmentArgs`, `PointLights` and
    /// `DirectionalLights` and, with vertex skinning, `JointTransforms`, the
    /// globals, the textures and the output. No two of its names collide, so it
    /// fails only where the program did not link.
    pub fn compile(&self, linkage: Linkage) -> (r: Result<PipelineDescriptor, Error>)
        ensures
            pipeline_outcome(r) == self.spec_layout().compiled(linkage),
            linkage == Linkage::Linked ==> pipeline_outcome(r) == Ok::<_, Error>(
                self.spec_layout().descriptor(),
            ),
            linkage == Linkage::Failed ==> r == Err::<PipelineDescriptor, _>(
                Error::Compile(CompileError::LinkFailed),
            ),
    {
        proof {
            lemma_separate_collision_free(self.skinning);
        }
        self.layout().compile(linkage)
    }

    /// Draws one frame of the scene.
    ///
    /// `inverse` is the inverse of the transform of the scene's camera, or `None`
    /// where that transform has no inverse. An entity is drawn where it has a
    /// mesh, a material and a transform, and its mesh is loaded and has a buffer
    /// for each attribute of the layout. Joints are uploaded only with vertex
    /// skinning.
    pub fn apply(&self, scene: &Scene, inverse: Option<Matrix4>) -> (r: Result<Frame, Error>)
        ensures
            frame_outcome(r) == scene@.frame(self.spec_layout(), inverse),
    {
        let layout = self.layout();
        draw_frame(&layout, scene, inverse)
    }
}

impl Default for DrawShadedSeparate {
    /// The pass without vertex skinning.
    fn default() -> (pass: Self)
        ensures
            !pass.spec_skinning(),
    {
        DrawShadedSeparate { skinning: false }
    }
}

} // verus!
