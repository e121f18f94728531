use shaded_pass::error::{CompileError, Error};
use shaded_pass::pipe::{Linkage, VertexBufferSlot};
use shaded_pass::shaded::VertexLayout;
use shaded_pass::vertex::{normal, position, tex_coord};

fn slot(attributes: Vec<shaded_pass::vertex::Attribute>) -> VertexBufferSlot {
    VertexBufferSlot { attributes, stride: 36, rate: 0 }
}

#[test]
fn colliding_attribute_names_are_a_compile_error() {
    let collision = Err(Error::Compile(CompileError::NameCollision));
    let twice = VertexLayout {
        buffers: vec![slot(vec![position(0), normal(12), position(24)])],
        skinning: false,
    };
    assert_eq!(twice.clone().compile(Linkage::Linked), collision);
    assert_eq!(twice.compile(Linkage::Failed), collision);
}

#[test]
fn colliding_names_in_two_buffers_are_a_compile_error() {
    let across = VertexLayout {
        buffers: vec![slot(vec![position(0), normal(12)]), slot(vec![tex_coord(0), normal(8)])],
        skinning: true,
    };
    assert!(!across.clone().describe().collision_free());
    assert_eq!(
        across.compile(Linkage::Linked),
        Err(Error::Compile(CompileError::NameCollision))
    );
}

#[test]
fn layout_without_collision_compiles_as_declared() {
    let layout = VertexLayout {
        buffers: vec![slot(vec![position(0), normal(12)]), slot(vec![tex_coord(0)])],
        skinning: false,
    };
    let d = layout.clone().compile(Linkage::Linked).unwrap();
    assert_eq!(d.vertex_buffers, layout.buffers);
    assert_eq!(d.attribute_names(), vec!["position", "normal", "tex_coord"]);
    assert_eq!(
        d.constant_buffer_names(),
        vec!["VertexArgs", "FragmentArgs", "PointLights", "DirectionalLights"]
    );
    assert_eq!(
        layout.compile(Linkage::Failed),
        Err(Error::Compile(CompileError::LinkFailed))
    );
}
