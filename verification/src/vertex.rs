//! Vertex attributes and the formats that hold them.

use crate::text::same_name;
use vstd::prelude::*;

verus! {

/// The components of one element and their widths.
#[derive(Clone, Copy, Debug, PartialEq, Eq, Structural)]
pub enum Surface {
    /// Two components of 32 bits.
    Rg32,
    /// Three components of 32 bits.
    Rgb32,
    /// Four components of 32 bits.
    Rgba32,
    /// Four components of 16 bits.
    Rgba16,
}

/// How the shader reads a component.
#[derive(Clone, Copy, Debug, PartialEq, Eq, Structural)]
pub enum Channel {
    /// As an unsigned integer.
    Uint,
    /// As a real number.
    Real,
}

/// The format of one element of a vertex attribute.
#[derive(Clone, Copy, Debug, PartialEq, Eq, Structural)]
pub struct Format {
    pub surface: Surface,
    pub channel: Channel,
}

impl Surface {
    /// The number of bytes that one element takes.
    pub open spec fn spec_size(self) -> nat {
        match self {
            Surface::Rg32 => 8,
            Surface::Rgb32 => 12,
            Surface::Rgba32 => 16,
            Surface::Rgba16 => 8,
        }
    }

    /// The number of bytes that one element takes.
    pub fn size(&self) -> (bytes: usize)
        ensures
            bytes == self.spec_size(),
    {
        match self {
            Surface::Rg32 => 8,
            Surface::Rgb32 => 12,
            Surface::Rgba32 => 16,
            Surface::Rgba16 => 8,
        }
    }
}

/// A named vertex attribute: its element format and where it starts within one
/// vertex of its buffer.
#[derive(Clone, Copy, Debug, PartialEq, Eq)]
pub struct Attribute {
    pub name: &'static str,
    pub format: Format,
    pub offset: u32,
}

/// What an [`Attribute`] stands for: its name as text, its format and its offset.
pub ghost struct AttributeView {
    pub name: Seq<char>,
    pub format: Format,
    pub offset: u32,
}

impl View for Attribute {
    type V = AttributeView;

    open spec fn view(&self) -> AttributeView {
        AttributeView { name: self.name@, format: self.format, offset: self.offset }
    }
}

impl Attribute {
    /// Whether two attributes have the same name, format and offset.
    pub fn same(&self, other: &Attribute) -> (same: bool)
        ensures
            same == (self@ == other@),
    {
        same_name(self.name, other.name) && self.format == other.format && self.offset
            == other.offset
    }
}

/// The attributes of a list, each by its view.
pub open spec fn attribute_views(attributes: Seq<Attribute>) -> Seq<AttributeView> {
    attributes.map_values(|a: Attribute| a@)
}

/// Where a vertex is: three real numbers named `position`.
pub open spec fn spec_position(offset: u32) -> AttributeView {
    AttributeView {
        name: "position"@,
        format: Format { surface: Surface::Rgb32, channel: Channel::Real },
        offset,
    }
}

/// The surface normal at a vertex: three real numbers named `normal`.
pub open spec fn spec_normal(offset: u32) -> AttributeView {
    AttributeView {
        name: "normal"@,
        format: Format { surface: Surface::Rgb32, channel: Channel::Real },
        offset,
    }
}

/// The tangent at a vertex: three real numbers named `tangent`.
pub open spec fn spec_tangent(offset: u32) -> AttributeView {
    AttributeView {
        name: "tangent"@,
        format: Format { surface: Surface::Rgb32, channel: Channel::Real },
        offset,
    }
}

/// The texture coordinate of a vertex: two real numbers named `tex_coord`.
pub open spec fn spec_tex_coord(offset: u32) -> AttributeView {
    AttributeView {
        name: "tex_coord"@,
        format: Format { surface: Surface::Rg32, channel: Channel::Real },
        offset,
    }
}

/// The joints that move a vertex: four 16-bit indices named `joint_ids`.
pub open spec fn spec_joint_ids(offset: u32) -> AttributeView {
    AttributeView {
        name: "joint_ids"@,
        format: Format { surface: Surface::Rgba16, channel: Channel::Uint },
        offset,
    }
}

/// How much each joint moves a vertex: four real numbers named `joint_weights`.
pub open spec fn spec_joint_weights(offset: u32) -> AttributeView {
    AttributeView {
        name: "joint_weights"@,
        format: Format { surface: Surface::Rgba32, channel: Channel::Real },
        offset,
    }
}

/// The `position` attribute at the given offset.
pub fn position(offset: u32) -> (a: Attribute)
    ensures
        a@ == spec_position(offset),
{
    Attribute {
        name: "position",
        format: Format { surface: Surface::Rgb32, channel: Channel::Real },
        offset,
    }
}

/// The `normal` attribute at the given offset.
pub fn normal(offset: u32) -> (a: Attribute)
    ensures
        a@ == spec_normal(offset),
{
    Attribute {
        name: "normal",
        format: Format { surface: Surface::Rgb32, channel: Channel::Real },
        offset,
    }
}

/// The `tangent` attribute at the given offset.
pub fn tangent(offset: u32) -> (a: Attribute)
    ensures
        a@ == spec_tangent(offset),
{
    Attribute {
        name: "tangent",
        format: Format { surface: Surface::Rgb32, channel: Channel::Real },
        offset,
    }
}

/// The `tex_coord` attribute at the given offset.
pub fn tex_coord(offset: u32) -> (a: Attribute)
    ensures
        a@ == spec_tex_coord(offset),
{
    Attribute {
        name: "tex_coord",
        format: Format { surface: Surface::Rg32, channel: Channel::Real },
        offset,
    }
}

/// The `joint_ids` attribute at the given offset.
pub fn joint_ids(offset: u32) -> (a: Attribute)
    ensures
        a@ == spec_joint_ids(offset),
{
    Attribute {
        name: "joint_ids",
        format: Format { surface: Surface::Rgba16, channel: Channel::Uint },
        offset,
    }
}

/// The `joint_weights` attribute at the given offset.
pub fn joint_weights(offset: u32) -> (a: Attribute)
    ensures
        a@ == spec_joint_weights(offset),
{
    Attribute {
        name: "joint_weights",
        format: Format { surface: Surface::Rgba32, channel: Channel::Real },
        offset,
    }
}

/// A vertex format that can be asked for the attributes a shaded mesh needs,
/// interleaved in one buffer.
pub trait Query {
    /// The attributes asked for, in the order in which the shader declares them.
    spec fn spec_queried_attributes() -> Seq<AttributeView>;

    /// The number of bytes that one vertex takes.
    spec fn spec_size() -> nat;

    /// The attributes asked for, in the order in which the shader declares them.
    fn queried_attributes() -> (attributes: Vec<Attribute>)
        ensures
            attribute_views(attributes@) == Self::spec_queried_attributes(),
    ;

    /// The number of bytes that one vertex takes.
    fn size() -> (bytes: usize)
        ensures
            bytes == Self::spec_size(),
    ;
}

/// A vertex of position, normal and texture coordinate.
#[derive(Clone, Copy, Debug, PartialEq, Eq)]
pub struct PosNormTex {
    pub position: [u32; 3],
    pub normal: [u32; 3],
    pub tex_coord: [u32; 2],
}

/// A vertex of position, normal, tangent and texture coordinate.
#[derive(Clone, Copy, Debug, PartialEq, Eq)]
pub struct PosNormTangTex {
    pub position: [u32; 3],
    pub normal: [u32; 3],
    pub tangent: [u32; 3],
    pub tex_coord: [u32; 2],
}

impl Query for PosNormTex {
    open spec fn spec_queried_attributes() -> Seq<AttributeView> {
        seq![spec_position(0), spec_normal(12), spec_tex_coord(24)]
    }

    open spec fn spec_size() -> nat {
        32
    }

    fn queried_attributes() -> (attributes: Vec<Attribute>) {
        let attributes = vec![position(0), normal(12), tex_coord(24)];
        assert(attribute_views(attributes@) =~= Self::spec_queried_attributes());
        attributes
    }

    fn size() -> (bytes: usize) {
        32
    }
}

impl Query for PosNormTangTex {
    open spec fn spec_queried_attributes() -> Seq<AttributeView> {
        seq![spec_position(0), spec_normal(12), spec_tex_coord(36)]
    }

    open spec fn spec_size() -> nat {
        44
    }

    fn queried_attributes() -> (attributes: Vec<Attribute>) {
        let attributes = vec![position(0), normal(12), tex_coord(36)];
        assert(attribute_views(attributes@) =~= Self::spec_queried_attributes());
        attributes
    }

    fn size() -> (bytes: usize) {
        44
    }
}

} // verus!
