//! Light sources and the records in which the GPU reads them.

use crate::math::{pad, spec_pad, Vector3, Vector4, ZERO};
use vstd::prelude::*;

verus! {

/// A colour: red, green, blue and alpha.
#[derive(Clone, Copy, Debug, PartialEq, Eq)]
pub struct Rgba {
    pub r: u32,
    pub g: u32,
    pub b: u32,
    pub a: u32,
}

impl Rgba {
    /// Red, green and blue, without alpha.
    pub open spec fn spec_rgb(self) -> Vector3 {
        Vector3 { x: self.r, y: self.g, z: self.b }
    }

    /// Red, green and blue, without alpha.
    pub fn rgb(&self) -> (v: Vector3)
        ensures
            v == self.spec_rgb(),
    {
        Vector3 { x: self.r, y: self.g, z: self.b }
    }
}

/// A light that shines from one direction everywhere.
#[derive(Clone, Copy, Debug, PartialEq, Eq)]
pub struct DirectionalLight {
    pub color: Rgba,
    pub direction: Vector3,
}

/// A light that shines from one point in all directions.
#[derive(Clone, Copy, Debug, PartialEq, Eq)]
pub struct PointLight {
    pub center: Vector3,
    pub color: Rgba,
    pub intensity: u32,
    pub radius: u32,
    pub smoothness: u32,
}

/// A light that shines from one point in a cone.
#[derive(Clone, Copy, Debug, PartialEq, Eq)]
pub struct SpotLight {
    pub angle: u32,
    pub center: Vector3,
    pub color: Rgba,
    pub direction: Vector3,
    pub intensity: u32,
    pub range: u32,
    pub smoothness: u32,
}

/// A directional light with the angular size of a disc.
#[derive(Clone, Copy, Debug, PartialEq, Eq)]
pub struct SunLight {
    pub ang_rad: u32,
    pub color: Rgba,
    pub direction: Vector3,
    pub intensity: u32,
}

/// A light source. A shaded pass lights a scene with its point lights and its
/// directional lights and passes over the other kinds.
#[derive(Clone, Copy, Debug, PartialEq, Eq)]
pub enum Light {
    Area,
    Directional(DirectionalLight),
    Point(PointLight),
    Spot(SpotLight),
    Sun(SunLight),
}

/// A point light as the GPU reads it: twelve words, with position and colour
/// widened to four words each and three words of padding at the end.
#[derive(Clone, Copy, Debug, PartialEq, Eq)]
pub struct PointLightPod {
    pub position: Vector4,
    pub color: Vector4,
    pub intensity: u32,
    pub pad: Vector3,
}

/// A directional light as the GPU reads it: eight words, with colour and
/// direction widened to four words each.
#[derive(Clone, Copy, Debug, PartialEq, Eq)]
pub struct DirectionalLightPod {
    pub color: Vector4,
    pub direction: Vector4,
}

/// The number of bytes of one [`PointLightPod`].
pub const POINT_LIGHT_POD_SIZE: usize = 48;

/// The number of bytes of one [`DirectionalLightPod`].
pub const DIRECTIONAL_LIGHT_POD_SIZE: usize = 32;

impl PointLight {
    /// The record of this light: its centre, its colour without alpha, its
    /// intensity, and padding of zeros.
    pub open spec fn spec_pod(self) -> PointLightPod {
        PointLightPod {
            position: spec_pad(self.center),
            color: spec_pad(self.color.spec_rgb()),
            intensity: self.intensity,
            pad: Vector3 { x: ZERO, y: ZERO, z: ZERO },
        }
    }

    /// Packs this light into its record.
    pub fn pod(&self) -> (pod: PointLightPod)
        ensures
            pod == self.spec_pod(),
    {
        PointLightPod {
            position: pad(self.center),
            color: pad(self.color.rgb()),
            intensity: self.intensity,
            pad: Vector3 { x: ZERO, y: ZERO, z: ZERO },
        }
    }
}

impl DirectionalLight {
    /// The record of this light: its colour without alpha, and its direction.
    pub open spec fn spec_pod(self) -> DirectionalLightPod {
        DirectionalLightPod {
            color: spec_pad(self.color.spec_rgb()),
            direction: spec_pad(self.direction),
        }
    }

    /// Packs this light into its record.
    pub fn pod(&self) -> (pod: DirectionalLightPod)
        ensures
            pod == self.spec_pod(),
    {
        DirectionalLightPod { color: pad(self.color.rgb()), direction: pad(self.direction) }
    }
}

impl PointLightPod {
    /// The words of the record in the order in which the GPU reads them.
    pub open spec fn spec_words(self) -> Seq<u32> {
        seq![
            self.position.x,
            self.position.y,
            self.position.z,
            self.position.w,
            self.color.x,
            self.color.y,
            self.color.z,
            self.color.w,
            self.intensity,
            self.pad.x,
            self.pad.y,
            self.pad.z,
        ]
    }

    /// The words of the record in the order in which the GPU reads them: four
    /// bytes each, [`POINT_LIGHT_POD_SIZE`] bytes in all.
    pub fn words(&self) -> (words: Vec<u32>)
        ensures
            words@ == self.spec_words(),
            words@.len() * 4 == POINT_LIGHT_POD_SIZE,
    {
        let words = vec![
            self.position.x,
            self.position.y,
            self.position.z,
            self.position.w,
            self.color.x,
            self.color.y,
            self.color.z,
            self.color.w,
            self.intensity,
            self.pad.x,
            self.pad.y,
            self.pad.z,
        ];
        assert(words@ =~= self.spec_words());
        words
    }
}

impl DirectionalLightPod {
    /// The words of the record in the order in which the GPU reads them.
    pub open spec fn spec_words(self) -> Seq<u32> {
        seq![
            self.color.x,
            self.color.y,
            self.color.z,
            self.color.w,
            self.direction.x,
            self.direction.y,
            self.direction.z,
            self.direction.w,
        ]
    }

    /// The words of the record in the order in which the GPU reads them: four
    /// bytes each, [`DIRECTIONAL_LIGHT_POD_SIZE`] bytes in all.
    pub fn words(&self) -> (words: Vec<u32>)
        ensures
            words@ == self.spec_words(),
            words@.len() * 4 == DIRECTIONAL_LIGHT_POD_SIZE,
    {
        let words = vec![
            self.color.x,
            self.color.y,
            self.color.z,
            self.color.w,
            self.direction.x,
            self.direction.y,
            self.direction.z,
            self.direction.w,
        ];
        assert(words@ =~= self.spec_words());
        words
    }
}

} // verus!
