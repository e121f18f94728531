//! The description of a GPU pipeline: which shader program it runs and which
//! slots it declares for vertex buffers, constant buffers, globals, textures and
//! its output.

use crate::text::same_name;
use crate::vertex::{attribute_views, Attribute, AttributeView};
use vstd::prelude::*;

verus! {

/// A vertex shader of the shaded pass.
#[derive(Clone, Copy, Debug, PartialEq, Eq, Structural)]
pub enum VertexShader {
    /// Transforms each vertex by the model, view and projection matrices.
    Basic,
    /// Moves each vertex by its joints first.
    Skinned,
}

/// A fragment shader of the shaded pass.
#[derive(Clone, Copy, Debug, PartialEq, Eq, Structural)]
pub enum FragmentShader {
    /// Adds up what each light gives to a fragment.
    Shaded,
}

/// The shader program of a pipeline.
#[derive(Clone, Copy, Debug, PartialEq, Eq, Structural)]
pub struct ShaderProgram {
    pub vertex: VertexShader,
    pub fragment: FragmentShader,
}

/// What the device said when it was asked to link a shader program.
#[derive(Clone, Copy, Debug, PartialEq, Eq, Structural)]
pub enum Linkage {
    Linked,
    Failed,
}

/// How fragments are tested against the depth buffer.
#[derive(Clone, Copy, Debug, PartialEq, Eq, Structural)]
pub enum DepthMode {
    /// A fragment passes where it is no farther than what is there; the depth
    /// buffer is left as it is.
    LessEqualTest,
    /// A fragment passes where it is no farther than what is there, and its depth
    /// is written.
    LessEqualWrite,
}

/// A slot for one vertex buffer: the attributes read from it, the bytes from one
/// vertex to the next, and the instance rate.
#[derive(Clone, Debug, PartialEq, Eq)]
pub struct VertexBufferSlot {
    pub attributes: Vec<Attribute>,
    pub stride: u8,
    pub rate: u8,
}

/// What a [`VertexBufferSlot`] stands for.
pub ghost struct VertexBufferSlotView {
    pub attributes: Seq<AttributeView>,
    pub stride: u8,
    pub rate: u8,
}

impl View for VertexBufferSlot {
    type V = VertexBufferSlotView;

    open spec fn view(&self) -> VertexBufferSlotView {
        VertexBufferSlotView {
            attributes: attribute_views(self.attributes@),
            stride: self.stride,
            rate: self.rate,
        }
    }
}

/// A slot for one constant buffer: the name of its block in the shader, the
/// bytes of one element, and how many elements it has room for.
#[derive(Clone, Copy, Debug, PartialEq, Eq)]
pub struct ConstantBufferSlot {
    pub name: &'static str,
    pub size: usize,
    pub capacity: usize,
}

/// What a [`ConstantBufferSlot`] stands for.
pub ghost struct ConstantBufferSlotView {
    pub name: Seq<char>,
    pub size: usize,
    pub capacity: usize,
}

impl View for ConstantBufferSlot {
    type V = ConstantBufferSlotView;

    open spec fn view(&self) -> ConstantBufferSlotView {
        ConstantBufferSlotView { name: self.name@, size: self.size, capacity: self.capacity }
    }
}

/// The output of a pipeline: the name of the colour target and the depth test,
/// if there is one.
#[derive(Clone, Copy, Debug, PartialEq, Eq)]
pub struct OutputSlot {
    pub name: &'static str,
    pub depth: Option<DepthMode>,
}

/// What an [`OutputSlot`] stands for.
pub ghost struct OutputSlotView {
    pub name: Seq<char>,
    pub depth: Option<DepthMode>,
}

impl View for OutputSlot {
    type V = OutputSlotView;

    open spec fn view(&self) -> OutputSlotView {
        OutputSlotView { name: self.name@, depth: self.depth }
    }
}

/// The description of a pipeline. The order of the slots of each kind is the
/// order in which they were declared.
#[derive(Clone, Debug, PartialEq, Eq)]
pub struct PipelineDescriptor {
    pub program: ShaderProgram,
    pub vertex_buffers: Vec<VertexBufferSlot>,
    pub constant_buffers: Vec<ConstantBufferSlot>,
    pub globals: Vec<&'static str>,
    pub textures: Vec<&'static str>,
    pub output: OutputSlot,
}

/// What a [`PipelineDescriptor`] stands for.
pub ghost struct PipelineView {
    pub program: ShaderProgram,
    pub vertex_buffers: Seq<VertexBufferSlotView>,
    pub constant_buffers: Seq<ConstantBufferSlotView>,
    pub globals: Seq<Seq<char>>,
    pub textures: Seq<Seq<char>>,
    pub output: OutputSlotView,
}

/// The names of a list, each as text.
pub open spec fn name_views(names: Seq<&'static str>) -> Seq<Seq<char>> {
    names.map_values(|n: &'static str| n@)
}

impl View for PipelineDescriptor {
    type V = PipelineView;

    open spec fn view(&self) -> PipelineView {
        PipelineView {
            program: self.program,
            vertex_buffers: self.vertex_buffers@.map_values(|b: VertexBufferSlot| b@),
            constant_buffers: self.constant_buffers@.map_values(|c: ConstantBufferSlot| c@),
            globals: name_views(self.globals@),
            textures: name_views(self.textures@),
            output: self.output@,
        }
    }
}

/// Whether no name occurs twice.
pub open spec fn distinct(names: Seq<Seq<char>>) -> bool {
    forall|i: int, j: int| 0 <= i < j < names.len() ==> names[i] != names[j]
}

/// The names of the attributes of some vertex buffer slots, slot by slot.
pub open spec fn attribute_names(buffers: Seq<VertexBufferSlotView>) -> Seq<Seq<char>>
    decreases buffers.len(),
{
    if buffers.len() == 0 {
        Seq::empty()
    } else {
        attribute_names(buffers.drop_last()) + buffers.last().attributes.map_values(
            |a: AttributeView| a.name,
        )
    }
}

impl PipelineView {
    /// The names of the constant buffer slots.
    pub open spec fn constant_buffer_names(self) -> Seq<Seq<char>> {
        self.constant_buffers.map_values(|c: ConstantBufferSlotView| c.name)
    }

    /// Whether no two slots of one kind have the same name: no two vertex
    /// attributes, no two constant buffers, no two globals, no two textures.
    pub open spec fn collision_free(self) -> bool {
        &&& distinct(attribute_names(self.vertex_buffers))
        &&& distinct(self.constant_buffer_names())
        &&& distinct(self.globals)
        &&& distinct(self.textures)
    }

    /// The constant buffer slot of the given name, where one is declared.
    pub open spec fn declares_block(self, name: Seq<char>) -> bool {
        exists|k: int| 0 <= k < self.constant_buffers.len() && self.constant_buffers[k].name == name
    }
}

/// Whether no name occurs twice in the list.
pub fn distinct_names(names: &Vec<&'static str>) -> (ok: bool)
    ensures
        ok == distinct(name_views(names@)),
{
    let ghost views = name_views(names@);
    let mut j: usize = 0;
    while j < names.len()
        invariant
            j <= names.len(),
            views == name_views(names@),
            forall|a: int, b: int| 0 <= a < b < j ==> views[a] != views[b],
        decreases names.len() - j,
    {
        let mut i: usize = 0;
        while i < j
            invariant
                i <= j < names.len(),
                views == name_views(names@),
                forall|a: int| 0 <= a < i ==> views[a] != views[j as int],
            decreases j - i,
        {
            if same_name(names[i], names[j]) {
                assert(views[i as int] == views[j as int]);
                return false;
            }
            i += 1;
        }
        j += 1;
    }
    true
}

impl PipelineDescriptor {
    /// The names of all vertex attributes, slot by slot.
    pub fn attribute_names(&self) -> (names: Vec<&'static str>)
        ensures
            name_views(names@) == attribute_names(self@.vertex_buffers),
    {
        let ghost slots = self@.vertex_buffers;
        let mut names: Vec<&'static str> = Vec::new();
        let mut b: usize = 0;
        assert(slots.take(0) =~= Seq::empty());
        while b < self.vertex_buffers.len()
            invariant
                b <= self.vertex_buffers.len(),
                slots == self@.vertex_buffers,
                name_views(names@) == attribute_names(slots.take(b as int)),
            decreases self.vertex_buffers.len() - b,
        {
            let slot = &self.vertex_buffers[b];
            let ghost before = name_views(names@);
            let ghost own = slot@.attributes.map_values(|a: AttributeView| a.name);
            let mut k: usize = 0;
            while k < slot.attributes.len()
                invariant
                    k <= slot.attributes.len(),
                    own == slot@.attributes.map_values(|a: AttributeView| a.name),
                    name_views(names@) =~= before + own.take(k as int),
                decreases slot.attributes.len() - k,
            {
                let ghost earlier = names@;
                names.push(slot.attributes[k].name);
                proof {
                    assert(slot@.attributes[k as int] == slot.attributes@[k as int]@);
                    assert(own[k as int] == slot.attributes@[k as int].name@);
                    assert(own.take(k + 1) =~= own.take(k as int).push(own[k as int]));
                    assert(name_views(names@) =~= name_views(earlier).push(
                        slot.attributes@[k as int].name@,
                    ));
                }
                k += 1;
            }
            proof {
                assert(own.take(k as int) =~= own);
                assert(slots.take(b + 1).drop_last() =~= slots.take(b as int));
                assert(slots.take(b + 1).last() == slot@);
            }
            b += 1;
        }
        assert(slots.take(b as int) =~= slots);
        names
    }

    /// The names of the constant buffer slots, in declared order.
    pub fn constant_buffer_names(&self) -> (names: Vec<&'static str>)
        ensures
            name_views(names@) == self@.constant_buffer_names(),
    {
        let mut names: Vec<&'static str> = Vec::new();
        let mut k: usize = 0;
        while k < self.constant_buffers.len()
            invariant
                k <= self.constant_buffers.len(),
                name_views(names@) =~= self@.constant_buffer_names().take(k as int),
            decreases self.constant_buffers.len() - k,
        {
            let ghost earlier = names@;
            let ghost all = self@.constant_buffer_names();
            names.push(self.constant_buffers[k].name);
            proof {
                assert(self@.constant_buffers[k as int] == self.constant_buffers@[k as int]@);
                assert(all[k as int] == self.constant_buffers@[k as int].name@);
                assert(all.take(k + 1) =~= all.take(k as int).push(all[k as int]));
                assert(name_views(names@) =~= name_views(earlier).push(
                    self.constant_buffers@[k as int].name@,
                ));
            }
            k += 1;
        }
        assert(self@.constant_buffer_names().take(k as int) =~= self@.constant_buffer_names());
        names
    }

    /// Whether no two slots of one kind have the same name.
    pub fn collision_free(&self) -> (ok: bool)
        ensures
            ok == self@.collision_free(),
    {
        let attributes = self.attribute_names();
        let blocks = self.constant_buffer_names();
        distinct_names(&attributes) && distinct_names(&blocks) && distinct_names(&self.globals)
            && distinct_names(&self.textures)
    }
}

} // verus!
