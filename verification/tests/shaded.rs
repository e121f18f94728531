use shaded_pass::error::{CompileError, Error, FatalError};
use shaded_pass::light::{
    DirectionalLight, Light, PointLight, Rgba, SpotLight, DIRECTIONAL_LIGHT_POD_SIZE,
    POINT_LIGHT_POD_SIZE,
};
use shaded_pass::math::{pad, Matrix4, Vector3, Vector4, ONE, ZERO};
use shaded_pass::mesh::{Mesh, Slice, VertexBuffer};
use shaded_pass::mtl::{resolve, Material, MaterialDefaults, Texture, TextureSlot};
use shaded_pass::pipe::{DepthMode, FragmentShader, Linkage, VertexShader};
use shaded_pass::scene::{Camera, Entity, JointTransforms, Scene};
use shaded_pass::shaded::layout::{
    FRAGMENT_ARGS_SIZE, JOINT_TRANSFORM_SIZE, MAX_DIRECTIONAL_LIGHTS, MAX_JOINTS,
    MAX_POINT_LIGHTS, VERTEX_ARGS_SIZE,
};
use shaded_pass::shaded::lights::pack_lights;
use shaded_pass::shaded::{Command, DrawShaded, DrawShadedSeparate, FragmentArgs};
use shaded_pass::text::same_name;
use shaded_pass::vertex::{
    joint_ids, joint_weights, normal, position, tangent, tex_coord, Attribute, Channel, Format,
    PosNormTangTex, PosNormTex, Query, Surface,
};

fn bits(x: f32) -> u32 {
    x.to_bits()
}

fn v3(x: f32, y: f32, z: f32) -> Vector3 {
    Vector3 { x: bits(x), y: bits(y), z: bits(z) }
}

fn v4(x: f32, y: f32, z: f32, w: f32) -> Vector4 {
    Vector4 { x: bits(x), y: bits(y), z: bits(z), w: bits(w) }
}

fn translation(x: f32, y: f32, z: f32) -> Matrix4 {
    Matrix4 {
        x: v4(1.0, 0.0, 0.0, 0.0),
        y: v4(0.0, 1.0, 0.0, 0.0),
        z: v4(0.0, 0.0, 1.0, 0.0),
        w: v4(x, y, z, 1.0),
    }
}

fn scaling(s: f32) -> Matrix4 {
    Matrix4 {
        x: v4(s, 0.0, 0.0, 0.0),
        y: v4(0.0, s, 0.0, 0.0),
        z: v4(0.0, 0.0, s, 0.0),
        w: v4(0.0, 0.0, 0.0, 1.0),
    }
}

fn white() -> Rgba {
    Rgba { r: bits(1.0), g: bits(1.0), b: bits(1.0), a: bits(0.5) }
}

fn nothing() -> Entity {
    Entity { camera: None, transform: None, light: None, mesh: None, material: None, joints: None }
}

fn point(x: f32, intensity: f32) -> Entity {
    Entity {
        light: Some(Light::Point(PointLight {
            center: v3(x, 2.0, 3.0),
            color: Rgba { r: bits(0.25), g: bits(0.5), b: bits(0.75), a: bits(0.125) },
            intensity: bits(intensity),
            radius: bits(9.0),
            smoothness: bits(4.0),
        })),
        ..nothing()
    }
}

fn directional(x: f32) -> Entity {
    Entity {
        light: Some(Light::Directional(DirectionalLight {
            color: white(),
            direction: v3(x, -1.0, 0.0),
        })),
        ..nothing()
    }
}

fn drawn(mesh: usize, at: Matrix4) -> Entity {
    Entity {
        transform: Some(at),
        mesh: Some(mesh),
        material: Some(Material { albedo: 2, emission: 3 }),
        ..nothing()
    }
}

fn viewpoint(proj: Matrix4, at: Matrix4) -> Entity {
    Entity { camera: Some(Camera { proj }), transform: Some(at), ..nothing() }
}

fn separate_mesh(first: u32) -> Mesh {
    Mesh {
        buffers: vec![
            VertexBuffer { attributes: vec![position(0)], raw: first },
            VertexBuffer { attributes: vec![normal(0)], raw: first + 1 },
            VertexBuffer { attributes: vec![tex_coord(0)], raw: first + 2 },
        ],
        slice: Slice { start: 0, end: 36 },
    }
}

fn skinned_mesh(first: u32) -> Mesh {
    let mut mesh = separate_mesh(first);
    mesh.buffers.push(VertexBuffer { attributes: vec![joint_ids(0)], raw: first + 3 });
    mesh.buffers.push(VertexBuffer { attributes: vec![joint_weights(0)], raw: first + 4 });
    mesh
}

fn mesh_without_normal(first: u32) -> Mesh {
    Mesh {
        buffers: vec![
            VertexBuffer { attributes: vec![position(0)], raw: first },
            VertexBuffer { attributes: vec![tex_coord(0)], raw: first + 2 },
        ],
        slice: Slice { start: 0, end: 12 },
    }
}

fn tex(n: u32) -> Texture {
    Texture { view: n, sampler: n + 100 }
}

/// Textures 0 and 1 are the defaults; 2 and 3 are those of `drawn` entities.
fn scene(entities: Vec<Entity>, meshes: Vec<Option<Mesh>>) -> Scene {
    Scene {
        active_camera: None,
        entities,
        ambient: Rgba { r: bits(0.1), g: bits(0.2), b: bits(0.3), a: bits(1.0) },
        meshes,
        textures: vec![Some(tex(0)), Some(tex(1)), Some(tex(2)), Some(tex(3))],
        defaults: MaterialDefaults(Material { albedo: 0, emission: 1 }),
    }
}

#[test]
fn end_to_end_scene_draws_two_of_three_meshes() {
    let s = scene(
        vec![
            point(1.0, 5.0),
            drawn(0, translation(1.0, 0.0, 0.0)),
            directional(0.5),
            drawn(1, translation(2.0, 0.0, 0.0)),
            point(7.0, 6.0),
            drawn(2, translation(3.0, 0.0, 0.0)),
        ],
        vec![Some(separate_mesh(10)), Some(mesh_without_normal(20)), Some(separate_mesh(30))],
    );
    let frame = DrawShadedSeparate::new().apply(&s, None).unwrap();
    assert_eq!(frame.fragment_args.point_light_count, 2);
    assert_eq!(frame.fragment_args.directional_light_count, 1);
    assert_eq!(frame.point_lights.len(), 2);
    assert_eq!(frame.directional_lights.len(), 1);
    assert_eq!(frame.draws.len(), 2);
    assert_eq!(frame.draws[0].entity, 1);
    assert_eq!(frame.draws[1].entity, 5);
    assert!(frame.draws.iter().all(|d| d.entity != 3));
    assert_eq!(frame.draws[0].vertex_buffers, vec![10, 11, 12]);
    assert_eq!(frame.draws[1].vertex_buffers, vec![30, 31, 32]);
    assert_eq!(frame.draws[0].slice, Slice { start: 0, end: 36 });
    assert_eq!(frame.draws[1].vertex_args.model, translation(3.0, 0.0, 0.0));
    assert_eq!(frame.ambient_color, v3(0.1, 0.2, 0.3));
}

#[test]
fn point_light_is_packed_with_padding() {
    let s = scene(vec![point(1.0, 5.0)], vec![]);
    let packed = pack_lights(&s);
    assert_eq!(packed.point.len(), 1);
    assert!(packed.directional.is_empty());
    let pod = packed.point[0];
    assert_eq!(pod.position, v4(1.0, 2.0, 3.0, 1.0));
    assert_eq!(pod.color, v4(0.25, 0.5, 0.75, 1.0));
    assert_eq!(pod.intensity, bits(5.0));
    assert_eq!(pod.pad, v3(0.0, 0.0, 0.0));
    assert_eq!(
        pod.words(),
        vec![
            bits(1.0),
            bits(2.0),
            bits(3.0),
            bits(1.0),
            bits(0.25),
            bits(0.5),
            bits(0.75),
            bits(1.0),
            bits(5.0),
            0,
            0,
            0
        ]
    );
    assert_eq!(pod.words().len() * 4, POINT_LIGHT_POD_SIZE);
    assert_eq!(POINT_LIGHT_POD_SIZE, 48);
}

#[test]
fn directional_light_is_packed_with_padding() {
    let s = scene(vec![directional(0.5)], vec![]);
    let packed = pack_lights(&s);
    assert!(packed.point.is_empty());
    assert_eq!(packed.directional.len(), 1);
    let pod = packed.directional[0];
    assert_eq!(pod.color, v4(1.0, 1.0, 1.0, 1.0));
    assert_eq!(pod.direction, v4(0.5, -1.0, 0.0, 1.0));
    assert_eq!(
        pod.words(),
        vec![
            bits(1.0),
            bits(1.0),
            bits(1.0),
            bits(1.0),
            bits(0.5),
            bits(-1.0),
            bits(0.0),
            bits(1.0)
        ]
    );
    assert_eq!(pod.words().len() * 4, DIRECTIONAL_LIGHT_POD_SIZE);
    assert_eq!(DIRECTIONAL_LIGHT_POD_SIZE, 32);
}

#[test]
fn pad_adds_a_one() {
    assert_eq!(ONE, 1.0f32.to_bits());
    assert_eq!(ZERO, 0.0f32.to_bits());
    assert_eq!(pad(v3(4.0, 5.0, 6.0)), v4(4.0, 5.0, 6.0, 1.0));
    assert_eq!(Matrix4::identity(), scaling(1.0));
    assert_eq!(translation(7.0, 8.0, 9.0).translation(), v3(7.0, 8.0, 9.0));
}

#[test]
fn light_counts_are_exact_within_capacity() {
    let mut entities = Vec::new();
    for i in 0..128 {
        entities.push(point(i as f32, 1.0));
    }
    for i in 0..16 {
        entities.push(directional(i as f32));
    }
    let s = scene(entities, vec![]);
    let frame = DrawShadedSeparate::new().apply(&s, None).unwrap();
    assert_eq!(frame.fragment_args.point_light_count, 128);
    assert_eq!(frame.fragment_args.directional_light_count, 16);
    assert_eq!(frame.point_lights.len(), 128);
    assert_eq!(frame.directional_lights.len(), 16);
    assert_eq!(frame.point_lights[127].position, v4(127.0, 2.0, 3.0, 1.0));
    assert_eq!(frame.directional_lights[15].direction, v4(15.0, -1.0, 0.0, 1.0));
}

#[test]
fn light_counts_of_a_small_scene() {
    let s = scene(
        vec![directional(1.0), point(1.0, 1.0), point(2.0, 1.0), directional(2.0), point(3.0, 1.0)],
        vec![],
    );
    let frame = DrawShaded::<PosNormTex>::new().apply(&s, None).unwrap();
    assert_eq!(frame.fragment_args.point_light_count, 3);
    assert_eq!(frame.fragment_args.directional_light_count, 2);
    assert_eq!(frame.point_lights[0].position, v4(1.0, 2.0, 3.0, 1.0));
    assert_eq!(frame.point_lights[2].position, v4(3.0, 2.0, 3.0, 1.0));
    assert_eq!(frame.directional_lights[1].direction, v4(2.0, -1.0, 0.0, 1.0));
}

#[test]
fn lights_beyond_capacity_are_cut() {
    let mut entities = Vec::new();
    for i in 0..20 {
        entities.push(directional(i as f32));
    }
    for i in 0..130 {
        entities.push(point(i as f32, 1.0));
    }
    let s = scene(entities, vec![]);
    let frame = DrawShadedSeparate::new().apply(&s, None).unwrap();
    assert_eq!(MAX_POINT_LIGHTS, 128);
    assert_eq!(MAX_DIRECTIONAL_LIGHTS, 16);
    assert_eq!(frame.fragment_args.point_light_count, 128);
    assert_eq!(frame.fragment_args.directional_light_count, 16);
    assert_eq!(frame.point_lights.len(), 128);
    assert_eq!(frame.directional_lights.len(), 16);
    assert_eq!(frame.point_lights[0].position, v4(0.0, 2.0, 3.0, 1.0));
    assert_eq!(frame.point_lights[127].position, v4(127.0, 2.0, 3.0, 1.0));
    assert_eq!(frame.directional_lights[15].direction, v4(15.0, -1.0, 0.0, 1.0));
}

#[test]
fn other_kinds_of_light_are_passed_over() {
    let spot = Entity {
        light: Some(Light::Spot(SpotLight {
            angle: bits(1.0),
            center: v3(0.0, 0.0, 0.0),
            color: white(),
            direction: v3(0.0, -1.0, 0.0),
            intensity: bits(1.0),
            range: bits(1.0),
            smoothness: bits(1.0),
        })),
        ..nothing()
    };
    let area = Entity { light: Some(Light::Area), ..nothing() };
    let s = scene(vec![spot, area, point(1.0, 1.0)], vec![]);
    let packed = pack_lights(&s);
    assert_eq!(packed.point.len(), 1);
    assert_eq!(packed.directional.len(), 0);
}

#[test]
fn same_scene_packs_the_same_lights() {
    let s = scene(vec![point(1.0, 1.0), directional(3.0), point(2.0, 1.0)], vec![]);
    let a = pack_lights(&s);
    let b = pack_lights(&s);
    assert_eq!(a.point, b.point);
    assert_eq!(a.directional, b.directional);
}

#[test]
fn mesh_without_a_required_buffer_is_not_drawn() {
    let s = scene(
        vec![drawn(0, scaling(1.0)), drawn(1, scaling(2.0)), drawn(0, scaling(3.0))],
        vec![Some(mesh_without_normal(5)), Some(separate_mesh(10))],
    );
    let frame = DrawShadedSeparate::new().apply(&s, None).unwrap();
    assert_eq!(frame.draws.len(), 1);
    assert_eq!(frame.draws[0].entity, 1);
    assert_eq!(frame.draws[0].vertex_buffers, vec![10, 11, 12]);
}

#[test]
fn mesh_that_is_not_loaded_is_not_drawn() {
    let s = scene(
        vec![drawn(0, scaling(1.0)), drawn(1, scaling(2.0)), drawn(7, scaling(3.0))],
        vec![None, Some(separate_mesh(10))],
    );
    let frame = DrawShadedSeparate::new().apply(&s, None).unwrap();
    assert_eq!(frame.draws.len(), 1);
    assert_eq!(frame.draws[0].entity, 1);
}

#[test]
fn entity_without_material_or_transform_is_not_drawn() {
    let mut no_material = drawn(0, scaling(1.0));
    no_material.material = None;
    let mut no_transform = drawn(0, scaling(1.0));
    no_transform.transform = None;
    let s = scene(
        vec![no_material, no_transform, drawn(0, scaling(1.0))],
        vec![Some(separate_mesh(10))],
    );
    let frame = DrawShadedSeparate::new().apply(&s, None).unwrap();
    assert_eq!(frame.draws.len(), 1);
    assert_eq!(frame.draws[0].entity, 2);
}

#[test]
fn active_camera_is_used() {
    let mut s = scene(
        vec![
            viewpoint(scaling(2.0), translation(1.0, 1.0, 1.0)),
            viewpoint(scaling(3.0), translation(4.0, 5.0, 6.0)),
            drawn(0, scaling(7.0)),
        ],
        vec![Some(separate_mesh(10))],
    );
    s.active_camera = Some(1);
    assert_eq!(s.resolve_camera(), Some(1));
    let inverse = translation(-4.0, -5.0, -6.0);
    let frame = DrawShadedSeparate::new().apply(&s, Some(inverse)).unwrap();
    assert_eq!(frame.camera_position, v3(4.0, 5.0, 6.0));
    assert_eq!(frame.draws.len(), 1);
    assert_eq!(frame.draws[0].vertex_args.proj, scaling(3.0));
    assert_eq!(frame.draws[0].vertex_args.view, inverse);
    assert_eq!(frame.draws[0].vertex_args.model, scaling(7.0));
}

#[test]
fn first_camera_is_used_without_an_active_one() {
    let s = scene(
        vec![
            drawn(0, scaling(7.0)),
            viewpoint(scaling(2.0), translation(1.0, 2.0, 3.0)),
            viewpoint(scaling(3.0), translation(4.0, 5.0, 6.0)),
        ],
        vec![Some(separate_mesh(10))],
    );
    assert_eq!(s.resolve_camera(), Some(1));
    let inverse = translation(-1.0, -2.0, -3.0);
    let frame = DrawShaded::<PosNormTex>::new().apply(&s, Some(inverse)).unwrap();
    assert_eq!(frame.camera_position, v3(1.0, 2.0, 3.0));
    assert_eq!(frame.draws.len(), 0);
    let frame = DrawShadedSeparate::new().apply(&s, Some(inverse)).unwrap();
    assert_eq!(frame.draws[0].vertex_args.proj, scaling(2.0));
    assert_eq!(frame.draws[0].vertex_args.view, inverse);
}

#[test]
fn active_camera_without_transform_falls_back_to_the_first() {
    let mut bare = viewpoint(scaling(9.0), scaling(1.0));
    bare.transform = None;
    let mut s = scene(
        vec![nothing(), viewpoint(scaling(2.0), translation(1.0, 2.0, 3.0)), bare],
        vec![],
    );
    s.active_camera = Some(2);
    assert_eq!(s.resolve_camera(), Some(1));
    s.active_camera = Some(40);
    assert_eq!(s.resolve_camera(), Some(1));
    s.active_camera = Some(0);
    assert_eq!(s.resolve_camera(), Some(1));
}

#[test]
fn without_a_camera_the_view_is_the_identity() {
    let s = scene(vec![drawn(0, translation(1.0, 2.0, 3.0))], vec![Some(separate_mesh(10))]);
    assert_eq!(s.resolve_camera(), None);
    let frame = DrawShadedSeparate::new().apply(&s, None).unwrap();
    assert_eq!(frame.camera_position, v3(0.0, 0.0, 0.0));
    assert_eq!(frame.camera_position, Vector3 { x: 0, y: 0, z: 0 });
    assert_eq!(frame.draws[0].vertex_args.proj, scaling(1.0));
    assert_eq!(frame.draws[0].vertex_args.view, scaling(1.0));
    assert_eq!(frame.draws[0].vertex_args.model, translation(1.0, 2.0, 3.0));
    let again = DrawShadedSeparate::new().apply(&s, Some(scaling(5.0))).unwrap();
    assert_eq!(again, frame);
}

#[test]
fn singular_camera_gives_the_frame_up() {
    let s = scene(
        vec![viewpoint(scaling(2.0), scaling(0.0)), drawn(0, scaling(1.0))],
        vec![Some(separate_mesh(10))],
    );
    assert_eq!(
        DrawShadedSeparate::new().apply(&s, None),
        Err(Error::FatalConfiguration(FatalError::SingularCamera))
    );
}

#[test]
fn singular_camera_is_not_met_where_nothing_is_drawn() {
    let s = scene(
        vec![viewpoint(scaling(2.0), scaling(0.0)), drawn(0, scaling(1.0))],
        vec![Some(mesh_without_normal(10))],
    );
    let frame = DrawShadedSeparate::new().apply(&s, None).unwrap();
    assert!(frame.draws.is_empty());
}

#[test]
fn loaded_textures_of_the_material_are_bound() {
    let s = scene(vec![drawn(0, scaling(1.0))], vec![Some(separate_mesh(10))]);
    let frame = DrawShadedSeparate::new().apply(&s, None).unwrap();
    assert_eq!(frame.draws[0].albedo, tex(2));
    assert_eq!(frame.draws[0].emission, tex(3));
}

#[test]
fn albedo_that_is_not_loaded_falls_back_to_the_default() {
    let mut s = scene(vec![drawn(0, scaling(1.0))], vec![Some(separate_mesh(10))]);
    s.textures[2] = None;
    let frame = DrawShadedSeparate::new().apply(&s, None).unwrap();
    assert_eq!(frame.draws[0].albedo, tex(0));
    assert_eq!(frame.draws[0].emission, tex(3));
    s.textures.push(Some(tex(50)));
    s.defaults = MaterialDefaults(Material { albedo: 4, emission: 1 });
    let frame = DrawShadedSeparate::new().apply(&s, None).unwrap();
    assert_eq!(frame.draws[0].albedo, tex(50));
    assert_eq!(frame.draws[0].emission, tex(3));
}

#[test]
fn emission_outside_the_storage_falls_back_to_the_default() {
    let mut s = scene(vec![drawn(0, scaling(1.0))], vec![Some(separate_mesh(10))]);
    s.entities[0].material = Some(Material { albedo: 2, emission: 99 });
    let frame = DrawShaded::<PosNormTex>::new().apply(&s, None).unwrap();
    assert!(frame.draws.is_empty());
    let frame = DrawShadedSeparate::new().apply(&s, None).unwrap();
    assert_eq!(frame.draws[0].albedo, tex(2));
    assert_eq!(frame.draws[0].emission, tex(1));
}

#[test]
fn missing_default_albedo_gives_the_frame_up() {
    let mut s = scene(vec![drawn(0, scaling(1.0))], vec![Some(separate_mesh(10))]);
    s.textures[2] = None;
    s.textures[0] = None;
    assert_eq!(
        DrawShadedSeparate::new().apply(&s, None),
        Err(Error::FatalConfiguration(FatalError::MissingDefault(TextureSlot::Albedo)))
    );
}

#[test]
fn missing_default_emission_gives_the_frame_up() {
    let mut s = scene(vec![drawn(0, scaling(1.0))], vec![Some(separate_mesh(10))]);
    s.textures[3] = None;
    s.textures[1] = None;
    assert_eq!(
        DrawShadedSeparate::new().apply(&s, None),
        Err(Error::FatalConfiguration(FatalError::MissingDefault(TextureSlot::Emission)))
    );
}

#[test]
fn missing_default_is_not_met_where_the_material_is_loaded() {
    let mut s = scene(vec![drawn(0, scaling(1.0))], vec![Some(separate_mesh(10))]);
    s.textures[0] = None;
    s.textures[1] = None;
    let frame = DrawShadedSeparate::new().apply(&s, None).unwrap();
    assert_eq!(frame.draws[0].albedo, tex(2));
    assert_eq!(frame.draws[0].emission, tex(3));
}

#[test]
fn resolve_prefers_the_handle_over_the_fallback() {
    let textures = vec![Some(tex(0)), None, Some(tex(2))];
    assert_eq!(resolve(&textures, 2, 0), Some(tex(2)));
    assert_eq!(resolve(&textures, 1, 0), Some(tex(0)));
    assert_eq!(resolve(&textures, 9, 2), Some(tex(2)));
    assert_eq!(resolve(&textures, 1, 1), None);
    assert_eq!(resolve(&textures, 1, 9), None);
}

#[test]
fn skinned_pass_declares_and_binds_joints() {
    let pass = DrawShadedSeparate::new().with_vertex_skinning();
    assert!(pass.skinning());
    assert_eq!(pass.program().vertex, VertexShader::Skinned);
    assert_eq!(pass.program().fragment, FragmentShader::Shaded);
    let d = pass.compile(Linkage::Linked).unwrap();
    assert_eq!(d.program, pass.program());
    assert_eq!(d.vertex_buffers.len(), 5);
    assert_eq!(d.vertex_buffers[0].attributes, vec![position(0)]);
    assert_eq!(d.vertex_buffers[1].attributes, vec![normal(0)]);
    assert_eq!(d.vertex_buffers[2].attributes, vec![tex_coord(0)]);
    assert_eq!(d.vertex_buffers[3].attributes, vec![joint_ids(0)]);
    assert_eq!(d.vertex_buffers[4].attributes, vec![joint_weights(0)]);
    let strides: Vec<u8> = d.vertex_buffers.iter().map(|b| b.stride).collect();
    assert_eq!(strides, vec![12, 12, 8, 8, 16]);
    let blocks: Vec<(&str, usize, usize)> =
        d.constant_buffers.iter().map(|c| (c.name, c.size, c.capacity)).collect();
    assert_eq!(
        blocks,
        vec![
            ("VertexArgs", 192, 1),
            ("FragmentArgs", 8, 1),
            ("PointLights", 48, 128),
            ("DirectionalLights", 32, 16),
            ("JointTransforms", 64, 100)
        ]
    );
    let matrices: Vec<Matrix4> = (0..3).map(|i| scaling(i as f32)).collect();
    let mut skinned = drawn(0, scaling(1.0));
    skinned.joints = Some(JointTransforms { matrices: matrices.clone() });
    let s = scene(
        vec![skinned, drawn(1, scaling(1.0)), drawn(0, scaling(2.0))],
        vec![Some(skinned_mesh(10)), Some(separate_mesh(20))],
    );
    let frame = pass.apply(&s, None).unwrap();
    assert_eq!(frame.draws.len(), 2);
    assert_eq!(frame.draws[0].entity, 0);
    assert_eq!(frame.draws[0].vertex_buffers, vec![10, 11, 12, 13, 14]);
    assert_eq!(frame.draws[0].joint_transforms, Some(matrices));
    assert_eq!(frame.draws[1].entity, 2);
    assert_eq!(frame.draws[1].joint_transforms, None);
}

#[test]
fn plain_pass_never_refers_to_joints() {
    let pass = DrawShadedSeparate::new();
    assert!(!pass.skinning());
    assert_eq!(pass, DrawShadedSeparate::default());
    assert_eq!(pass.program().vertex, VertexShader::Basic);
    let d = pass.compile(Linkage::Linked).unwrap();
    assert_eq!(d.vertex_buffers.len(), 3);
    let strides: Vec<u8> = d.vertex_buffers.iter().map(|b| b.stride).collect();
    assert_eq!(strides, vec![12, 12, 8]);
    let names: Vec<&str> = d.constant_buffers.iter().map(|c| c.name).collect();
    assert_eq!(names, vec!["VertexArgs", "FragmentArgs", "PointLights", "DirectionalLights"]);
    assert!(d.vertex_buffers.iter().all(|b| b.rate == 0));
    let mut skinned = drawn(0, scaling(1.0));
    skinned.joints = Some(JointTransforms { matrices: vec![scaling(2.0)] });
    let s = scene(vec![skinned], vec![Some(skinned_mesh(10))]);
    let frame = pass.apply(&s, None).unwrap();
    assert_eq!(frame.draws.len(), 1);
    assert_eq!(frame.draws[0].vertex_buffers, vec![10, 11, 12]);
    assert_eq!(frame.draws[0].joint_transforms, None);
}

#[test]
fn joints_beyond_capacity_are_cut() {
    let matrices: Vec<Matrix4> = (0..105).map(|i| scaling(i as f32)).collect();
    let mut skinned = drawn(0, scaling(1.0));
    skinned.joints = Some(JointTransforms { matrices: matrices.clone() });
    let s = scene(vec![skinned], vec![Some(skinned_mesh(10))]);
    let frame = DrawShadedSeparate::new().with_vertex_skinning().apply(&s, None).unwrap();
    assert_eq!(MAX_JOINTS, 100);
    assert_eq!(frame.draws[0].joint_transforms, Some(matrices[..100].to_vec()));
    assert_eq!(JointTransforms { matrices }.upload().len(), 100);
}

#[test]
fn pipeline_declares_globals_textures_and_output() {
    let d = DrawShadedSeparate::new().compile(Linkage::Linked).unwrap();
    assert_eq!(d.globals, vec!["ambient_color", "camera_position"]);
    assert_eq!(d.textures, vec!["emission", "albedo"]);
    assert_eq!(d.output.name, "out_color");
    assert_eq!(d.output.depth, Some(DepthMode::LessEqualWrite));
    assert!(d.collision_free());
    assert_eq!(VERTEX_ARGS_SIZE, 192);
    assert_eq!(FRAGMENT_ARGS_SIZE, 8);
    assert_eq!(JOINT_TRANSFORM_SIZE, 64);
}

#[test]
fn link_failure_is_a_compile_error() {
    let failed = Err(Error::Compile(CompileError::LinkFailed));
    assert_eq!(DrawShadedSeparate::new().compile(Linkage::Failed), failed);
    assert_eq!(DrawShadedSeparate::new().with_vertex_skinning().compile(Linkage::Failed), failed);
    assert_eq!(DrawShaded::<PosNormTex>::new().compile(Linkage::Failed), failed);
}

#[test]
fn interleaved_pass_declares_one_buffer() {
    let pass = DrawShaded::<PosNormTex>::new();
    assert_eq!(pass.program().vertex, VertexShader::Basic);
    let d = pass.compile(Linkage::Linked).unwrap();
    assert_eq!(d.vertex_buffers.len(), 1);
    assert_eq!(d.vertex_buffers[0].attributes, vec![position(0), normal(12), tex_coord(24)]);
    assert_eq!(d.vertex_buffers[0].stride, 32);
    assert_eq!(d.vertex_buffers[0].rate, 0);
    assert_eq!(d.constant_buffers.len(), 4);
    let d = DrawShaded::<PosNormTangTex>::new().compile(Linkage::Linked).unwrap();
    assert_eq!(d.vertex_buffers[0].attributes, vec![position(0), normal(12), tex_coord(36)]);
    assert_eq!(d.vertex_buffers[0].stride, 44);
    assert_eq!(PosNormTex::size(), 32);
    assert_eq!(PosNormTangTex::size(), 44);
    assert_eq!(PosNormTangTex::queried_attributes().len(), 3);
}

#[test]
fn interleaved_pass_draws_from_the_buffer_with_all_attributes() {
    let interleaved = Mesh {
        buffers: vec![
            VertexBuffer { attributes: vec![position(0), normal(12)], raw: 1 },
            VertexBuffer { attributes: vec![tex_coord(24), position(0), normal(12)], raw: 2 },
            VertexBuffer { attributes: vec![position(0), normal(12), tex_coord(24)], raw: 3 },
        ],
        slice: Slice { start: 3, end: 9 },
    };
    let tangent_mesh = Mesh {
        buffers: vec![VertexBuffer {
            attributes: vec![position(0), normal(12), tangent(24), tex_coord(36)],
            raw: 8,
        }],
        slice: Slice { start: 0, end: 3 },
    };
    let s = scene(
        vec![drawn(0, scaling(1.0)), drawn(1, scaling(1.0))],
        vec![Some(interleaved), Some(tangent_mesh)],
    );
    let frame = DrawShaded::<PosNormTex>::new().apply(&s, None).unwrap();
    assert_eq!(frame.draws.len(), 1);
    assert_eq!(frame.draws[0].entity, 0);
    assert_eq!(frame.draws[0].vertex_buffers, vec![2]);
    assert_eq!(frame.draws[0].slice, Slice { start: 3, end: 9 });
    assert_eq!(frame.draws[0].joint_transforms, None);
    let frame = DrawShaded::<PosNormTangTex>::new().apply(&s, None).unwrap();
    assert_eq!(frame.draws.len(), 1);
    assert_eq!(frame.draws[0].entity, 1);
    assert_eq!(frame.draws[0].vertex_buffers, vec![8]);
}

#[test]
fn mesh_buffer_wants_name_format_and_offset() {
    let mesh = separate_mesh(10);
    assert_eq!(mesh.buffer(&vec![normal(0)]), Some(11));
    assert_eq!(mesh.buffer(&vec![normal(4)]), None);
    assert_eq!(mesh.buffer(&vec![tangent(0)]), None);
    assert_eq!(mesh.buffer(&vec![position(0), normal(0)]), None);
    assert_eq!(mesh.buffer(&vec![]), Some(10));
    let odd = Attribute {
        name: "normal",
        format: Format { surface: Surface::Rgba32, channel: Channel::Real },
        offset: 0,
    };
    assert_eq!(mesh.buffer(&vec![odd]), None);
    assert!(!odd.same(&normal(0)));
    assert!(normal(0).same(&normal(0)));
    assert!(mesh.buffers[0].has(&position(0)));
    assert!(!mesh.buffers[0].holds(&vec![position(0), normal(0)]));
}

#[test]
fn names_are_compared_as_text() {
    assert!(same_name("albedo", "albedo"));
    assert!(!same_name("albedo", "albedO"));
    assert!(!same_name("albedo", "albed"));
    assert!(same_name("", ""));
    assert!(same_name("é", "é"));
    assert!(!same_name("tex_coord", "joint_ids"));
}

#[test]
fn surface_sizes() {
    assert_eq!(Surface::Rg32.size(), 8);
    assert_eq!(Surface::Rgb32.size(), 12);
    assert_eq!(Surface::Rgba32.size(), 16);
    assert_eq!(Surface::Rgba16.size(), 8);
    assert_eq!(joint_ids(0).format, Format { surface: Surface::Rgba16, channel: Channel::Uint });
    assert_eq!(joint_weights(0).name, "joint_weights");
}

#[test]
fn commands_of_a_frame_come_in_order() {
    let mut skinned = drawn(0, scaling(1.0));
    skinned.joints = Some(JointTransforms { matrices: vec![scaling(2.0), scaling(3.0)] });
    let s = scene(
        vec![point(1.0, 5.0), skinned, directional(0.5)],
        vec![Some(skinned_mesh(10))],
    );
    let frame = DrawShadedSeparate::new().with_vertex_skinning().apply(&s, None).unwrap();
    let commands = frame.commands();
    assert_eq!(
        commands,
        vec![
            Command::AmbientColor(v3(0.1, 0.2, 0.3)),
            Command::CameraPosition(v3(0.0, 0.0, 0.0)),
            Command::UpdateFragmentArgs(frame.fragment_args),
            Command::UpdatePointLight(0, frame.point_lights[0]),
            Command::UpdateDirectionalLight(0, frame.directional_lights[0]),
            Command::UpdateVertexArgs(frame.draws[0].vertex_args),
            Command::UpdateJointTransform(0, scaling(2.0)),
            Command::UpdateJointTransform(1, scaling(3.0)),
            Command::BindTexture(3),
            Command::BindSampler(103),
            Command::BindTexture(2),
            Command::BindSampler(102),
            Command::BindVertexBuffer(10),
            Command::BindVertexBuffer(11),
            Command::BindVertexBuffer(12),
            Command::BindVertexBuffer(13),
            Command::BindVertexBuffer(14),
            Command::Draw(Slice { start: 0, end: 36 }),
            Command::Clear,
        ]
    );
}

#[test]
fn end_to_end_scene_issues_two_draw_commands() {
    let s = scene(
        vec![
            point(1.0, 5.0),
            point(2.0, 5.0),
            directional(0.5),
            drawn(0, scaling(1.0)),
            drawn(1, scaling(1.0)),
            drawn(2, scaling(1.0)),
        ],
        vec![Some(separate_mesh(10)), Some(mesh_without_normal(20)), Some(separate_mesh(30))],
    );
    let frame = DrawShadedSeparate::new().apply(&s, None).unwrap();
    assert_eq!(
        frame.fragment_args,
        FragmentArgs { point_light_count: 2, directional_light_count: 1 }
    );
    let commands = frame.commands();
    let draws = commands.iter().filter(|c| matches!(c, Command::Draw(_))).count();
    let clears = commands.iter().filter(|c| matches!(c, Command::Clear)).count();
    assert_eq!(draws, 2);
    assert_eq!(clears, 2);
    assert!(!commands.contains(&Command::BindVertexBuffer(20)));
    assert!(!commands.contains(&Command::BindVertexBuffer(22)));
    assert_eq!(commands.last(), Some(&Command::Clear));
}
