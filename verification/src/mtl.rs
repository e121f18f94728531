//! Textures and the materials that refer to them.

use vstd::prelude::*;

verus! {

/// A texture on the GPU: the numbers of its view and of its sampler.
#[derive(Clone, Copy, Debug, PartialEq, Eq)]
pub struct Texture {
    pub view: u32,
    pub sampler: u32,
}

/// The textures of a surface, each named by its handle in the texture storage.
/// A handle may name a texture that is not loaded, or none at all.
#[derive(Clone, Copy, Debug, PartialEq, Eq)]
pub struct Material {
    pub albedo: usize,
    pub emission: usize,
}

/// The material whose textures stand in where those of an entity are not loaded.
#[derive(Clone, Copy, Debug, PartialEq, Eq)]
pub struct MaterialDefaults(pub Material);

/// The texture slot that could not be filled.
#[derive(Clone, Copy, Debug, PartialEq, Eq, Structural)]
pub enum TextureSlot {
    Albedo,
    Emission,
}

/// The texture under a handle: the one stored there, if the handle is within the
/// storage and its texture is loaded.
pub open spec fn spec_texture(textures: Seq<Option<Texture>>, handle: usize) -> Option<Texture> {
    if handle < textures.len() {
        textures[handle as int]
    } else {
        None
    }
}

/// The texture to draw with: the one under `handle` if it is loaded, else the one
/// under `fallback` if that is loaded.
pub open spec fn spec_resolve(
    textures: Seq<Option<Texture>>,
    handle: usize,
    fallback: usize,
) -> Option<Texture> {
    if spec_texture(textures, handle) is Some {
        spec_texture(textures, handle)
    } else {
        spec_texture(textures, fallback)
    }
}

/// Looks a texture up by its handle.
pub fn texture(textures: &Vec<Option<Texture>>, handle: usize) -> (found: Option<Texture>)
    ensures
        found == spec_texture(textures@, handle),
{
    if handle < textures.len() {
        textures[handle]
    } else {
        None
    }
}

/// Resolves a texture of a material: the texture under `handle` where it is
/// loaded, else the one under `fallback`; `None` where neither is loaded.
pub fn resolve(textures: &Vec<Option<Texture>>, handle: usize, fallback: usize) -> (found: Option<
    Texture,
>)
    ensures
        found == spec_resolve(textures@, handle, fallback),
{
    match texture(textures, handle) {
        Some(t) => Some(t),
        None => texture(textures, fallback),
    }
}

} // verus!
