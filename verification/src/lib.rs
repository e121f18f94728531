//! A forward-shading render pass, planned as plain data.
//!
//! A pass is configured once, describes the GPU pipeline it needs, and then turns a
//! scene into a frame each time it is applied: the lights packed for upload, the
//! camera matrices, and one draw call for every mesh that can be drawn.
//!
//! Every scalar that the GPU reads as a single-precision number is carried here as
//! its 32-bit pattern; the crate moves such words around and never computes with
//! them.

pub mod math;
pub mod text;
pub mod vertex;
pub mod search;
pub mod mesh;
pub mod light;
pub mod mtl;
pub mod error;
pub mod scene;
pub mod cam;
pub mod pipe;
pub mod shaded;
