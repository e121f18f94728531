//! What can go wrong in a pass.

use crate::mtl::TextureSlot;
use vstd::prelude::*;

verus! {

/// Why a pipeline could not be compiled.
#[derive(Clone, Copy, Debug, PartialEq, Eq, Structural)]
pub enum CompileError {
    /// Two slots of one kind were declared under the same name.
    NameCollision,
    /// The shader program did not link.
    LinkFailed,
}

/// A broken promise of the scene's setup, after which the frame is given up.
#[derive(Clone, Copy, Debug, PartialEq, Eq, Structural)]
pub enum FatalError {
    /// The transform of the camera has no inverse.
    SingularCamera,
    /// A texture of an entity is not loaded, and neither is the default that
    /// stands in for it.
    MissingDefault(TextureSlot),
}

/// An error of a pass.
#[derive(Clone, Copy, Debug, PartialEq, Eq, Structural)]
pub enum Error {
    /// The pipeline could not be compiled; the pass cannot run.
    Compile(CompileError),
    /// The scene breaks a promise of its setup; the frame is given up.
    FatalConfiguration(FatalError),
}

} // verus!
