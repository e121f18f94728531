//! The vertex layout of a shaded pass and the pipeline that is compiled for it.

use crate::error::{CompileError, Error};
use crate::light::{DIRECTIONAL_LIGHT_POD_SIZE, POINT_LIGHT_POD_SIZE};
use crate::pipe::{
    attribute_names, distinct, ConstantBufferSlot, ConstantBufferSlotView, DepthMode,
    FragmentShader, Linkage, OutputSlot, OutputSlotView, PipelineDescriptor, PipelineView,
    ShaderProgram, VertexBufferSlot, VertexBufferSlotView, VertexShader,
};
use crate::vertex::AttributeView;
use vstd::prelude::*;

verus! {

/// The number of point lights that the shader has room for.
pub const MAX_POINT_LIGHTS: usize = 128;

/// The number of directional lights that the shader has room for.
pub const MAX_DIRECTIONAL_LIGHTS: usize = 16;

/// The number of joint matrices that the skinned shader has room for.
pub const MAX_JOINTS: usize = 100;

/// The bytes of the per-draw constants: three matrices of sixteen words.
pub const VERTEX_ARGS_SIZE: usize = 192;

/// The bytes of the per-frame constants: two counts of four bytes.
pub const FRAGMENT_ARGS_SIZE: usize = 8;

/// The bytes of one joint matrix: sixteen words.
pub const JOINT_TRANSFORM_SIZE: usize = 64;

/// The vertex buffers that a pass binds for each mesh, in the order in which it
/// declares them, and whether it moves vertices by their joints.
#[derive(Clone, Debug, PartialEq, Eq)]
pub struct VertexLayout {
    pub buffers: Vec<VertexBufferSlot>,
    pub skinning: bool,
}

/// What a [`VertexLayout`] stands for.
pub ghost struct LayoutView {
    pub buffers: Seq<VertexBufferSlotView>,
    pub skinning: bool,
}

impl View for VertexLayout {
    type V = LayoutView;

    open spec fn view(&self) -> LayoutView {
        LayoutView {
            buffers: self.buffers@.map_values(|b: VertexBufferSlot| b@),
            skinning: self.skinning,
        }
    }
}

impl LayoutView {
    /// The shader program of the layout: the skinned vertex shader where the
    /// layout is skinned, else the basic one; the shaded fragment shader.
    pub open spec fn program(self) -> ShaderProgram {
        ShaderProgram {
            vertex: if self.skinning {
                VertexShader::Skinned
            } else {
                VertexShader::Basic
            },
            fragment: FragmentShader::Shaded,
        }
    }

    /// The constant buffers of the layout: the per-draw constants, the per-frame
    /// constants, the point lights and the directional lights; after them, where
    /// the layout is skinned, the joint matrices.
    pub open spec fn constant_buffers(self) -> Seq<ConstantBufferSlotView> {
        let shared = seq![
            ConstantBufferSlotView { name: "VertexArgs"@, size: VERTEX_ARGS_SIZE, capacity: 1 },
            ConstantBufferSlotView { name: "FragmentArgs"@, size: FRAGMENT_ARGS_SIZE, capacity: 1 },
            ConstantBufferSlotView {
                name: "PointLights"@,
                size: POINT_LIGHT_POD_SIZE,
                capacity: MAX_POINT_LIGHTS,
            },
            ConstantBufferSlotView {
                name: "DirectionalLights"@,
                size: DIRECTIONAL_LIGHT_POD_SIZE,
                capacity: MAX_DIRECTIONAL_LIGHTS,
            },
        ];
        if self.skinning {
            shared.push(
                ConstantBufferSlotView {
                    name: "JointTransforms"@,
                    size: JOINT_TRANSFORM_SIZE,
                    capacity: MAX_JOINTS,
                },
            )
        } else {
            shared
        }
    }

    /// The pipeline of the layout: its program, its vertex buffers as they are,
    /// its constant buffers, the globals `ambient_color` and `camera_position`,
    /// the textures `emission` and `albedo`, and the output `out_color` with a
    /// depth test that passes what is no farther and writes its depth.
    pub open spec fn descriptor(self) -> PipelineView {
        PipelineView {
            program: self.program(),
            vertex_buffers: self.buffers,
            constant_buffers: self.constant_buffers(),
            globals: seq!["ambient_color"@, "camera_position"@],
            textures: seq!["emission"@, "albedo"@],
            output: OutputSlotView { name: "out_color"@, depth: Some(DepthMode::LessEqualWrite) },
        }
    }

    /// What compiling the layout gives: a name collision where two slots of one
    /// kind share a name; else a link failure where the program did not link;
    /// else the pipeline of the layout.
    pub open spec fn compiled(self, linkage: Linkage) -> Result<PipelineView, Error> {
        if !self.descriptor().collision_free() {
            Err(Error::Compile(CompileError::NameCollision))
        } else if linkage == Linkage::Failed {
            Err(Error::Compile(CompileError::LinkFailed))
        } else {
            Ok(self.descriptor())
        }
    }
}

/// The attribute names of a list of slots with one more slot are those of the
/// list, followed by those of the slot.
pub proof fn lemma_attribute_names_push(buffers: Seq<VertexBufferSlotView>, slot: VertexBufferSlotView)
    ensures
        attribute_names(buffers.push(slot)) == attribute_names(buffers)
            + slot.attributes.map_values(|a: AttributeView| a.name),
{
    assert(buffers.push(slot).drop_last() =~= buffers);
}

/// The constant buffers, the globals and the textures of a layout are declared
/// under names that differ from each other.
pub proof fn lemma_block_names_distinct(layout: LayoutView)
    ensures
        distinct(layout.descriptor().constant_buffer_names()),
        distinct(layout.descriptor().globals),
        distinct(layout.descriptor().textures),
{
    reveal_strlit("VertexArgs");
    reveal_strlit("FragmentArgs");
    reveal_strlit("PointLights");
    reveal_strlit("DirectionalLights");
    reveal_strlit("JointTransforms");
    reveal_strlit("ambient_color");
    reveal_strlit("camera_position");
    reveal_strlit("emission");
    reveal_strlit("albedo");
    let blocks = layout.descriptor().constant_buffer_names();
    assert(blocks[0].len() == 10);
    assert(blocks[1].len() == 12);
    assert(blocks[2].len() == 11);
    assert(blocks[3].len() == 17);
    if layout.skinning {
        assert(blocks[4].len() == 15);
    }
    let globals = layout.descriptor().globals;
    assert(globals[0].len() == 13);
    assert(globals[1].len() == 15);
    let textures = layout.descriptor().textures;
    assert(textures[0].len() == 8);
    assert(textures[1].len() == 6);
}

/// A compiled pipeline, or the error that kept it from being compiled, as what
/// it stands for.
pub open spec fn pipeline_outcome(r: Result<PipelineDescriptor, Error>) -> Result<
    PipelineView,
    Error,
> {
    match r {
        Ok(d) => Ok(d@),
        Err(e) => Err(e),
    }
}

impl VertexLayout {
    /// The shader program of the layout.
    pub fn program(&self) -> (program: ShaderProgram)
        ensures
            program == self@.program(),
    {
        ShaderProgram {
            vertex: if self.skinning {
                VertexShader::Skinned
            } else {
                VertexShader::Basic
            },
            fragment: FragmentShader::Shaded,
        }
    }

    /// Describes the pipeline of the layout.
    pub fn describe(self) -> (descriptor: PipelineDescriptor)
        ensures
            descriptor@ == self@.descriptor(),
    {
        let program = self.program();
        let mut constant_buffers = vec![
            ConstantBufferSlot { name: "VertexArgs", size: VERTEX_ARGS_SIZE, capacity: 1 },
            ConstantBufferSlot { name: "FragmentArgs", size: FRAGMENT_ARGS_SIZE, capacity: 1 },
            ConstantBufferSlot {
                name: "PointLights",
                size: POINT_LIGHT_POD_SIZE,
                capacity: MAX_POINT_LIGHTS,
            },
            ConstantBufferSlot {
                name: "DirectionalLights",
                size: DIRECTIONAL_LIGHT_POD_SIZE,
                capacity: MAX_DIRECTIONAL_LIGHTS,
            },
        ];
        if self.skinning {
            constant_buffers.push(
                ConstantBufferSlot {
                    name: "JointTransforms",
                    size: JOINT_TRANSFORM_SIZE,
                    capacity: MAX_JOINTS,
                },
            );
        }
        let globals = vec!["ambient_color", "camera_position"];
        let textures = vec!["emission", "albedo"];
        let descriptor = PipelineDescriptor {
            program,
            vertex_buffers: self.buffers,
            constant_buffers,
            globals,
            textures,
            output: OutputSlot { name: "out_color", depth: Some(DepthMode::LessEqualWrite) },
        };
        proof {
            assert(descriptor@.constant_buffers =~= self@.constant_buffers());
            assert(descriptor@.globals =~= self@.descriptor().globals);
            assert(descriptor@.textures =~= self@.descriptor().textures);
        }
        descriptor
    }

    /// Compiles the pipeline of the layout, given what the device said of
    /// linking [`VertexLayout::program`].
    ///
    /// Fails with a name collision where two slots of one kind share a name, and
    /// else with a link failure where the program did not link.
    pub fn compile(self, linkage: Linkage) -> (r: Result<PipelineDescriptor, Error>)
        ensures
            pipeline_outcome(r) == self@.compiled(linkage),
    {
        let descriptor = self.describe();
        if !descriptor.collision_free() {
            return Err(Error::Compile(CompileError::NameCollision));
        }
        match linkage {
            Linkage::Failed => Err(Error::Compile(CompileError::LinkFailed)),
            Linkage::Linked => Ok(descriptor),
        }
    }
}

} // verus!
