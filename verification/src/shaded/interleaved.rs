//! The shaded pass for meshes with one interleaved vertex buffer.

use crate::error::Error;
use crate::math::Matrix4;
use crate::pipe::{Linkage, PipelineDescriptor, ShaderProgram, VertexBufferSlot, VertexBufferSlotView};
use crate::scene::Scene;
use crate::shaded::frame::{draw_frame, frame_outcome, Frame};
use crate::shaded::layout::{pipeline_outcome, LayoutView, VertexLayout};
use crate::vertex::Query;
use std::marker::PhantomData;
use vstd::prelude::*;

verus! {

/// Draws meshes with simple lighting. `V` is the format of the vertices: each
/// mesh is drawn from the one buffer that holds the attributes that `V` is asked
/// for.
#[derive(Debug, PartialEq)]
pub struct DrawShaded<V> {
    _pd: PhantomData<V>,
}

impl<V: Query> DrawShaded<V> {
    /// The layout of the pass: one buffer with the attributes that `V` is asked
    /// for, its stride the size of `V` cut to one byte, and no skinning.
    pub open spec fn spec_layout() -> LayoutView {
        LayoutView {
            buffers: seq![
                VertexBufferSlotView {
                    attributes: V::spec_queried_attributes(),
                    stride: (V::spec_size() % 256) as u8,
                    rate: 0,
                },
            ],
            skinning: false,
        }
    }

    /// The pass for vertices of format `V`. It has no settings: there is one
    /// such pass.
    pub closed spec fn spec_new() -> Self {
        DrawShaded { _pd: PhantomData }
    }

    /// Creates the pass.
    pub fn new() -> (pass: Self)
        ensures
            pass == Self::spec_new(),
    {
        DrawShaded { _pd: PhantomData }
    }

    /// The layout of the pass.
    pub fn layout(&self) -> (layout: VertexLayout)
        ensures
            layout@ == Self::spec_layout(),
    {
        let size = V::size();
        let stride = (size % 256) as u8;
        let buffers = vec![VertexBufferSlot { attributes: V::queried_attributes(), stride, rate: 0 }];
        let layout = VertexLayout { buffers, skinning: false };
        assert(layout@.buffers =~= Self::spec_layout().buffers);
        layout
    }

    /// The shader program that the device is to link for the pass: the basic
    /// vertex shader and the shaded fragment shader.
    pub fn program(&self) -> (program: ShaderProgram)
        ensures
            program == Self::spec_layout().program(),
    {
        self.layout().program()
    }

    /// Compiles the pipeline of the pass, given what the device said of linking
    /// its program.
    ///
    /// The pipeline declares the one vertex buffer of the layout, the constant
    /// buffers `VertexArgs`, `FragmentArgs`, `PointLights` and
    /// `DirectionalLights`, the globals, the textures and the output. It fails
    /// with a name collision where `V` names two attributes alike, and else with
    /// a link failure where the program did not link.
    pub fn compile(&self, linkage: Linkage) -> (r: Result<PipelineDescriptor, Error>)
        ensures
            pipeline_outcome(r) == Self::spec_layout().compiled(linkage),
    {
        self.layout().compile(linkage)
    }

    /// Draws one frame of the scene.
    ///
    /// `inverse` is the inverse of the transform of the scene's camera, or `None`
    /// where that transform has no inverse. An entity is drawn where it has a
    /// mesh, a material and a transform, and its mesh is loaded and has a buffer
    /// with the attributes that `V` is asked for; joints are never uploaded.
    pub fn apply(&self, scene: &Scene, inverse: Option<Matrix4>) -> (r: Result<Frame, Error>)
        ensures
            frame_outcome(r) == scene@.frame(Self::spec_layout(), inverse),
    {
        let layout = self.layout();
        draw_frame(&layout, scene, inverse)
    }
}

impl<V: Query> Default for DrawShaded<V> {
    /// The pass.
    fn default() -> (pass: Self)
        ensures
            pass == Self::spec_new(),
    {
        DrawShaded { _pd: PhantomData }
    }
}

impl<V> Clone for DrawShaded<V> {
    /// Another pass for the same format.
    fn clone(&self) -> (pass: Self)
        ensures
            pass == *self,
    {
        DrawShaded { _pd: PhantomData }
    }
}

} // verus!
