//! The shaded pass: meshes lit by the point lights and the directional lights of
//! the scene, with an albedo and an emission texture each.
//!
//! A pass comes in two forms, [`DrawShaded`] for meshes with one interleaved
//! vertex buffer and [`DrawShadedSeparate`] for meshes with one buffer for each
//! attribute. Both describe their vertex buffers as a [`layout::VertexLayout`];
//! what they compile and what they draw is decided from that layout alone.

pub mod commands;
pub mod frame;
pub mod interleaved;
pub mod layout;
pub mod lights;
pub mod separate;
pub mod theorems;

pub use self::commands::Command;
pub use self::frame::{DrawCall, FragmentArgs, Frame, VertexArgs};
pub use self::interleaved::DrawShaded;
pub use self::layout::VertexLayout;
pub use self::separate::DrawShadedSeparate;
