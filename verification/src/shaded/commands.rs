//! A frame as the sequence of commands that carries it out.

use crate::light::{DirectionalLightPod, PointLightPod};
use crate::math::{Matrix4, Vector3};
use crate::mesh::Slice;
use crate::shaded::frame::{draw_views, DrawCall, DrawCallView, FragmentArgs, Frame, FrameView, VertexArgs};
use vstd::prelude::*;

verus! {

/// One command to the GPU. What follows `Clear` starts from nothing bound.
#[derive(Clone, Copy, Debug, PartialEq, Eq)]
pub enum Command {
    /// Set the global `ambient_color`.
    AmbientColor(Vector3),
    /// Set the global `camera_position`.
    CameraPosition(Vector3),
    /// Upload the block `FragmentArgs`.
    UpdateFragmentArgs(FragmentArgs),
    /// Upload one record of the block `PointLights`, at the given place.
    UpdatePointLight(usize, PointLightPod),
    /// Upload one record of the block `DirectionalLights`, at the given place.
    UpdateDirectionalLight(usize, DirectionalLightPod),
    /// Upload the block `VertexArgs`.
    UpdateVertexArgs(VertexArgs),
    /// Upload one matrix of the block `JointTransforms`, at the given place.
    UpdateJointTransform(usize, Matrix4),
    /// Bind the view of a texture to the next texture slot.
    BindTexture(u32),
    /// Bind the sampler of a texture to the next sampler slot.
    BindSampler(u32),
    /// Bind a vertex buffer to the next vertex buffer slot.
    BindVertexBuffer(u32),
    /// Draw the given range of the mesh.
    Draw(Slice),
    /// Forget what was bound.
    Clear,
}

/// The commands that upload the point lights, record by record.
pub open spec fn point_light_uploads(lights: Seq<PointLightPod>) -> Seq<Command> {
    Seq::new(lights.len(), |i: int| Command::UpdatePointLight(i as usize, lights[i]))
}

/// The commands that upload the directional lights, record by record.
pub open spec fn directional_light_uploads(lights: Seq<DirectionalLightPod>) -> Seq<Command> {
    Seq::new(lights.len(), |i: int| Command::UpdateDirectionalLight(i as usize, lights[i]))
}

/// The commands that upload the joint matrices of a draw call, matrix by
/// matrix; none where the draw call has no joints.
pub open spec fn joint_uploads(joints: Option<Seq<Matrix4>>) -> Seq<Command> {
    match joints {
        Some(j) => Seq::new(j.len(), |i: int| Command::UpdateJointTransform(i as usize, j[i])),
        None => Seq::empty(),
    }
}

/// The commands that bind the vertex buffers of a draw call, in their order.
pub open spec fn buffer_bindings(buffers: Seq<u32>) -> Seq<Command> {
    Seq::new(buffers.len(), |i: int| Command::BindVertexBuffer(buffers[i]))
}

impl FrameView {
    /// The commands given once, before anything is drawn: the globals, the counts
    /// of the lights, and the lights.
    pub open spec fn setup(self) -> Seq<Command> {
        seq![
            Command::AmbientColor(self.ambient_color),
            Command::CameraPosition(self.camera_position),
            Command::UpdateFragmentArgs(self.fragment_args),
        ] + point_light_uploads(self.point_lights) + directional_light_uploads(
            self.directional_lights,
        )
    }

    /// The commands of the whole frame: the setup, then the commands of each
    /// draw call in turn.
    pub open spec fn commands(self) -> Seq<Command> {
        self.setup() + draw_commands(self.draws)
    }
}

impl DrawCallView {
    /// The commands of one draw call: upload the per-draw constants and, where
    /// there are any, the joints; bind the emission texture and then the albedo
    /// texture, each with its sampler; bind the vertex buffers; draw; clear.
    pub open spec fn commands(self) -> Seq<Command> {
        seq![Command::UpdateVertexArgs(self.vertex_args)] + joint_uploads(self.joint_transforms)
            + seq![
            Command::BindTexture(self.emission.view),
            Command::BindSampler(self.emission.sampler),
            Command::BindTexture(self.albedo.view),
            Command::BindSampler(self.albedo.sampler),
        ] + buffer_bindings(self.vertex_buffers) + seq![Command::Draw(self.slice), Command::Clear]
    }
}

/// The commands of some draw calls, one call after the other.
pub open spec fn draw_commands(draws: Seq<DrawCallView>) -> Seq<Command>
    decreases draws.len(),
{
    if draws.len() == 0 {
        Seq::empty()
    } else {
        draw_commands(draws.drop_last()) + draws.last().commands()
    }
}

/// The number of `Draw` commands among some commands.
pub open spec fn count_draws(commands: Seq<Command>) -> nat
    decreases commands.len(),
{
    if commands.len() == 0 {
        0
    } else {
        count_draws(commands.drop_last()) + if commands.last() is Draw {
            1nat
        } else {
            0nat
        }
    }
}

/// The `Draw` commands of two runs of commands add up.
pub proof fn lemma_count_draws_add(a: Seq<Command>, b: Seq<Command>)
    ensures
        count_draws(a + b) == count_draws(a) + count_draws(b),
    decreases b.len(),
{
    if b.len() == 0 {
        assert(a + b =~= a);
    } else {
        assert((a + b).drop_last() =~= a + b.drop_last());
        lemma_count_draws_add(a, b.drop_last());
    }
}

/// Commands of which none is a `Draw` count as no draw.
pub proof fn lemma_count_draws_none(a: Seq<Command>)
    requires
        forall|i: int| 0 <= i < a.len() ==> !(#[trigger] a[i] is Draw),
    ensures
        count_draws(a) == 0,
    decreases a.len(),
{
    if a.len() > 0 {
        lemma_count_draws_none(a.drop_last());
    }
}

/// One draw call holds exactly one `Draw` command, followed by `Clear` as its
/// last command.
pub proof fn lemma_draw_call_draws_once(call: DrawCallView)
    ensures
        count_draws(call.commands()) == 1,
        call.commands().len() >= 2,
        call.commands()[call.commands().len() - 2] == Command::Draw(call.slice),
        call.commands().last() == Command::Clear,
{
    let head = seq![Command::UpdateVertexArgs(call.vertex_args)] + joint_uploads(
        call.joint_transforms,
    ) + seq![
        Command::BindTexture(call.emission.view),
        Command::BindSampler(call.emission.sampler),
        Command::BindTexture(call.albedo.view),
        Command::BindSampler(call.albedo.sampler),
    ] + buffer_bindings(call.vertex_buffers);
    let draw = seq![Command::Draw(call.slice)];
    let clear = seq![Command::Clear];
    assert(call.commands() =~= head + draw + clear);
    lemma_count_draws_none(head);
    lemma_count_draws_none(clear);
    assert(draw.drop_last() =~= Seq::<Command>::empty());
    assert(draw.last() is Draw);
    assert(count_draws(draw.drop_last()) == 0);
    assert(count_draws(draw) == 1);
    lemma_count_draws_add(head, draw);
    lemma_count_draws_add(head + draw, clear);
}

/// The commands of some draw calls hold as many `Draw` commands as there are
/// draw calls.
pub proof fn lemma_draw_commands_count(draws: Seq<DrawCallView>)
    ensures
        count_draws(draw_commands(draws)) == draws.len(),
    decreases draws.len(),
{
    if draws.len() > 0 {
        lemma_draw_commands_count(draws.drop_last());
        lemma_draw_call_draws_once(draws.last());
        lemma_count_draws_add(draw_commands(draws.drop_last()), draws.last().commands());
    }
}

/// The commands of a frame hold one `Draw` command for each draw call of the
/// frame and no other.
pub proof fn theorem_one_draw_for_each_call(frame: FrameView)
    ensures
        count_draws(frame.commands()) == frame.draws.len(),
{
    lemma_count_draws_none(frame.setup());
    lemma_draw_commands_count(frame.draws);
    lemma_count_draws_add(frame.setup(), draw_commands(frame.draws));
}

impl DrawCall {
    /// Appends the commands of this draw call.
    pub fn record(&self, commands: &mut Vec<Command>)
        ensures
            final(commands)@ == old(commands)@ + self@.commands(),
    {
        let ghost start = commands@;
        commands.push(Command::UpdateVertexArgs(self.vertex_args));
        match &self.joint_transforms {
            Some(joints) => {
                let mut i: usize = 0;
                while i < joints.len()
                    invariant
                        i <= joints.len(),
                        self.joint_transforms == Some(*joints),
                        commands@ =~= start + seq![Command::UpdateVertexArgs(self.vertex_args)]
                            + joint_uploads(self@.joint_transforms).take(i as int),
                    decreases joints.len() - i,
                {
                    commands.push(Command::UpdateJointTransform(i, joints[i]));
                    i += 1;
                }
            },
            None => {},
        }
        let ghost uploaded = commands@;
        assert(uploaded =~= start + seq![Command::UpdateVertexArgs(self.vertex_args)]
            + joint_uploads(self@.joint_transforms));
        commands.push(Command::BindTexture(self.emission.view));
        commands.push(Command::BindSampler(self.emission.sampler));
        commands.push(Command::BindTexture(self.albedo.view));
        commands.push(Command::BindSampler(self.albedo.sampler));
        let ghost textured = commands@;
        let mut k: usize = 0;
        while k < self.vertex_buffers.len()
            invariant
                k <= self.vertex_buffers.len(),
                commands@ =~= textured + buffer_bindings(self@.vertex_buffers).take(k as int),
            decreases self.vertex_buffers.len() - k,
        {
            commands.push(Command::BindVertexBuffer(self.vertex_buffers[k]));
            k += 1;
        }
        commands.push(Command::Draw(self.slice));
        commands.push(Command::Clear);
        assert(commands@ =~= start + self@.commands());
    }
}

impl Frame {
    /// The commands that carry the frame out, in the order in which they are to
    /// be given: the setup once, then for each draw call its uploads, its
    /// bindings, the draw and the clearing of what was bound.
    pub fn commands(&self) -> (commands: Vec<Command>)
        ensures
            commands@ == self@.commands(),
    {
        let mut commands: Vec<Command> = Vec::new();
        commands.push(Command::AmbientColor(self.ambient_color));
        commands.push(Command::CameraPosition(self.camera_position));
        commands.push(Command::UpdateFragmentArgs(self.fragment_args));
        let ghost head = commands@;
        let mut i: usize = 0;
        while i < self.point_lights.len()
            invariant
                i <= self.point_lights.len(),
                commands@ =~= head + point_light_uploads(self@.point_lights).take(i as int),
            decreases self.point_lights.len() - i,
        {
            commands.push(Command::UpdatePointLight(i, self.point_lights[i]));
            i += 1;
        }
        let ghost pointed = commands@;
        let mut j: usize = 0;
        while j < self.directional_lights.len()
            invariant
                j <= self.directional_lights.len(),
                commands@ =~= pointed + directional_light_uploads(
                    self@.directional_lights,
                ).take(j as int),
            decreases self.directional_lights.len() - j,
        {
            commands.push(Command::UpdateDirectionalLight(j, self.directional_lights[j]));
            j += 1;
        }
        assert(commands@ =~= self@.setup());
        let ghost draws = self@.draws;
        let mut k: usize = 0;
        assert(draws.take(0) =~= Seq::empty());
        while k < self.draws.len()
            invariant
                k <= self.draws.len(),
                draws == self@.draws,
                commands@ == self@.setup() + draw_commands(draws.take(k as int)),
            decreases self.draws.len() - k,
        {
            proof {
                assert(draws.take(k + 1).drop_last() =~= draws.take(k as int));
                assert(draws.take(k + 1).last() == self.draws@[k as int]@);
            }
            self.draws[k].record(&mut commands);
            assert(commands@ =~= self@.setup() + draw_commands(draws.take(k + 1)));
            k += 1;
        }
        assert(draws.take(k as int) =~= draws);
        commands
    }
}

} // verus!
