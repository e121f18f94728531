//! Meshes: vertex buffers on the GPU, each with the attributes it holds.

use crate::search::{first_index, lemma_first_index_is, lemma_first_index_none};
use crate::vertex::{attribute_views, Attribute, AttributeView};
use vstd::prelude::*;

verus! {

/// The range of a mesh that one draw call covers.
#[derive(Clone, Copy, Debug, PartialEq, Eq)]
pub struct Slice {
    pub start: u32,
    pub end: u32,
}

/// A buffer of vertex data on the GPU, known by its number, and the attributes
/// found in it.
#[derive(Clone, Debug, PartialEq, Eq)]
pub struct VertexBuffer {
    pub attributes: Vec<Attribute>,
    pub raw: u32,
}

/// What a [`VertexBuffer`] stands for.
pub ghost struct VertexBufferView {
    pub attributes: Seq<AttributeView>,
    pub raw: u32,
}

impl View for VertexBuffer {
    type V = VertexBufferView;

    open spec fn view(&self) -> VertexBufferView {
        VertexBufferView { attributes: attribute_views(self.attributes@), raw: self.raw }
    }
}

/// A mesh: its vertex buffers and the range to draw.
#[derive(Clone, Debug, PartialEq, Eq)]
pub struct Mesh {
    pub buffers: Vec<VertexBuffer>,
    pub slice: Slice,
}

/// What a [`Mesh`] stands for.
pub ghost struct MeshView {
    pub buffers: Seq<VertexBufferView>,
    pub slice: Slice,
}

impl View for Mesh {
    type V = MeshView;

    open spec fn view(&self) -> MeshView {
        MeshView { buffers: self.buffers@.map_values(|b: VertexBuffer| b@), slice: self.slice }
    }
}

impl VertexBufferView {
    /// Whether every wanted attribute is found in this buffer, with the same name,
    /// format and offset.
    pub open spec fn holds(self, wanted: Seq<AttributeView>) -> bool {
        forall|k: int| 0 <= k < wanted.len() ==> self.attributes.contains(#[trigger] wanted[k])
    }
}

impl MeshView {
    /// The position of the first buffer that holds every wanted attribute.
    pub open spec fn buffer_index(self, wanted: Seq<AttributeView>) -> Option<int> {
        first_index(self.buffers.len() as int, |b: int| self.buffers[b].holds(wanted))
    }

    /// The number of the first buffer that holds every wanted attribute.
    pub open spec fn buffer(self, wanted: Seq<AttributeView>) -> Option<u32> {
        match self.buffer_index(wanted) {
            Some(b) => Some(self.buffers[b].raw),
            None => None,
        }
    }
}

impl VertexBuffer {
    /// Whether the attribute is found in this buffer.
    pub fn has(&self, attribute: &Attribute) -> (found: bool)
        ensures
            found == self@.attributes.contains(attribute@),
    {
        let mut i: usize = 0;
        while i < self.attributes.len()
            invariant
                i <= self.attributes.len(),
                forall|j: int| 0 <= j < i ==> self@.attributes[j] != attribute@,
            decreases self.attributes.len() - i,
        {
            if self.attributes[i].same(attribute) {
                assert(self@.attributes[i as int] == attribute@);
                return true;
            }
            i += 1;
        }
        false
    }

    /// Whether every wanted attribute is found in this buffer.
    pub fn holds(&self, wanted: &Vec<Attribute>) -> (all: bool)
        ensures
            all == self@.holds(attribute_views(wanted@)),
    {
        let ghost views = attribute_views(wanted@);
        let mut k: usize = 0;
        while k < wanted.len()
            invariant
                k <= wanted.len(),
                views == attribute_views(wanted@),
                forall|j: int| 0 <= j < k ==> self@.attributes.contains(#[trigger] views[j]),
            decreases wanted.len() - k,
        {
            if !self.has(&wanted[k]) {
                assert(!self@.attributes.contains(views[k as int]));
                return false;
            }
            k += 1;
        }
        true
    }
}

impl Mesh {
    /// The number of the first buffer of the mesh that holds every wanted
    /// attribute; `None` where the mesh has no such buffer.
    pub fn buffer(&self, wanted: &Vec<Attribute>) -> (raw: Option<u32>)
        ensures
            raw == self@.buffer(attribute_views(wanted@)),
    {
        let ghost views = attribute_views(wanted@);
        let ghost p = |b: int| self@.buffers[b].holds(views);
        let mut b: usize = 0;
        while b < self.buffers.len()
            invariant
                b <= self.buffers.len(),
                views == attribute_views(wanted@),
                p == (|b: int| self@.buffers[b].holds(views)),
                forall|j: int| 0 <= j < b ==> !#[trigger] p(j),
            decreases self.buffers.len() - b,
        {
            if self.buffers[b].holds(wanted) {
                proof {
                    assert(p(b as int));
                    lemma_first_index_is(self.buffers.len() as int, p, b as int);
                }
                return Some(self.buffers[b].raw);
            }
            assert(!p(b as int));
            b += 1;
        }
        proof {
            lemma_first_index_none(self.buffers.len() as int, p);
        }
        None
    }
}

} // verus!
