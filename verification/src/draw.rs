//! The instanced draw command: given one queued item's resolved GPU mesh and
//! instance buffer, decide the exact sequence of render-pass commands — the
//! buffer bindings and the one instanced draw call — or report failure for
//! that item alone.

use vstd::prelude::*;

use crate::instance::InstanceBuffer;
use crate::pipeline::PrimitiveTopology;

verus! {

/// How a GPU mesh is drawn: over an index buffer of `count` indices, or
/// directly over `vertex_count` vertices.
#[derive(Clone, Copy, PartialEq, Eq, Structural, Debug)]
pub enum MeshBufferInfo {
    Indexed { count: u32 },
    NonIndexed { vertex_count: u32 },
}

/// What the draw stage reads of a GPU-resident mesh.
#[derive(Clone, Copy, PartialEq, Eq, Structural, Debug)]
pub struct GpuMesh {
    pub topology: PrimitiveTopology,
    pub buffer_info: MeshBufferInfo,
}

/// One command recorded into the render pass. Slot 0 carries the mesh's own
/// vertex buffer, slot 1 the instance buffer.
#[derive(Clone, Copy, PartialEq, Eq, Structural, Debug)]
pub enum RenderPassCommand {
    SetVertexBuffer { slot: u32 },
    SetIndexBuffer,
    DrawIndexed { index_start: u32, index_end: u32, base_vertex: i32, instance_start: u32, instance_end: u32 },
    Draw { vertex_start: u32, vertex_end: u32, instance_start: u32, instance_end: u32 },
}

/// Whether a draw command reports success or a failure of its one item.
#[derive(Clone, Copy, PartialEq, Eq, Structural, Debug)]
pub enum RenderCommandResult {
    Success,
    Failure,
}

/// A command that makes the GPU do work, as opposed to binding state.
pub open spec fn is_draw_call(command: RenderPassCommand) -> bool {
    command is DrawIndexed || command is Draw
}

/// The number of draw calls among a command sequence.
pub open spec fn draw_call_count(commands: Seq<RenderPassCommand>) -> int
    decreases commands.len(),
{
    if commands.len() == 0 {
        0
    } else {
        draw_call_count(commands.drop_last()) + if is_draw_call(commands.last()) {
            1int
        } else {
            0int
        }
    }
}

/// The commands one queued item records when its mesh is resident: bind the
/// mesh's vertex buffer at slot 0 and the instance buffer at slot 1, then one
/// instanced draw call — indexed over the full index range if the mesh
/// carries an index buffer, otherwise over the full vertex range, with
/// instance range `[0, instance_count)` either way.
pub open spec fn spec_draw_commands(info: MeshBufferInfo, instance_count: u32) -> Seq<
    RenderPassCommand,
> {
    match info {
        MeshBufferInfo::Indexed { count } => seq![
            RenderPassCommand::SetVertexBuffer { slot: 0 },
            RenderPassCommand::SetVertexBuffer { slot: 1 },
            RenderPassCommand::SetIndexBuffer,
            RenderPassCommand::DrawIndexed {
                index_start: 0,
                index_end: count,
                base_vertex: 0,
                instance_start: 0,
                instance_end: instance_count,
            },
        ],
        MeshBufferInfo::NonIndexed { vertex_count } => seq![
            RenderPassCommand::SetVertexBuffer { slot: 0 },
            RenderPassCommand::SetVertexBuffer { slot: 1 },
            RenderPassCommand::Draw {
                vertex_start: 0,
                vertex_end: vertex_count,
                instance_start: 0,
                instance_end: instance_count,
            },
        ],
    }
}

/// Law: each queued item whose mesh is resident records exactly one draw
/// call, and that call is the last command: indexed meshes draw index range
/// `[0, count)` and non-indexed meshes vertex range `[0, vertex_count)`, both
/// with instance range `[0, instance_count)`.
pub proof fn lemma_exactly_one_draw_call(info: MeshBufferInfo, instance_count: u32)
    ensures
        draw_call_count(spec_draw_commands(info, instance_count)) == 1,
        info matches MeshBufferInfo::Indexed { count } ==> spec_draw_commands(
            info,
            instance_count,
        ).last() == (RenderPassCommand::DrawIndexed {
            index_start: 0,
            index_end: count,
            base_vertex: 0,
            instance_start: 0,
            instance_end: instance_count,
        }),
        info matches MeshBufferInfo::NonIndexed { vertex_count } ==> spec_draw_commands(
            info,
            instance_count,
        ).last() == (RenderPassCommand::Draw {
            vertex_start: 0,
            vertex_end: vertex_count,
            instance_start: 0,
            instance_end: instance_count,
        }),
{
    let commands = spec_draw_commands(info, instance_count);
    let bind0 = RenderPassCommand::SetVertexBuffer { slot: 0 };
    let bind1 = RenderPassCommand::SetVertexBuffer { slot: 1 };
    assert(draw_call_count(Seq::<RenderPassCommand>::empty()) == 0);
    assert(seq![bind0].drop_last() =~= Seq::<RenderPassCommand>::empty());
    assert(seq![bind0].last() == bind0);
    assert(draw_call_count(seq![bind0]) == 0);
    assert(seq![bind0, bind1].drop_last() =~= seq![bind0]);
    assert(draw_call_count(seq![bind0, bind1]) == 0);
    match info {
        MeshBufferInfo::Indexed { count } => {
            let bind_index = RenderPassCommand::SetIndexBuffer;
            assert(seq![bind0, bind1, bind_index].drop_last() =~= seq![bind0, bind1]);
            assert(draw_call_count(seq![bind0, bind1, bind_index]) == 0);
            assert(commands.drop_last() =~= seq![bind0, bind1, bind_index]);
            assert(draw_call_count(commands) == 1);
        },
        MeshBufferInfo::NonIndexed { vertex_count } => {
            assert(commands.drop_last() =~= seq![bind0, bind1]);
            assert(draw_call_count(commands) == 1);
        },
    }
}

/// The draw command for one queued phase item.
pub struct DrawMeshInstanced;

impl DrawMeshInstanced {
    /// Resolves the item's GPU mesh and issues its draw. An absent mesh is a
    /// reported failure for this item alone, with zero commands recorded; a
    /// resident mesh records its buffer bindings and exactly one instanced
    /// draw call over the stored element count.
    pub fn render(gpu_mesh: Option<&GpuMesh>, instance_buffer: &InstanceBuffer) -> (outcome: (
        RenderCommandResult,
        Vec<RenderPassCommand>,
    ))
        requires
            instance_buffer.length <= 0xffff_ffff,
        ensures
            gpu_mesh is None ==> outcome.0 is Failure && outcome.1@.len() == 0,
            gpu_mesh matches Some(mesh) ==> outcome.0 is Success && outcome.1@
                == spec_draw_commands(mesh.buffer_info, instance_buffer.length as u32),
    {
        let mesh = match gpu_mesh {
            Some(mesh) => mesh,
            None => {
                return (RenderCommandResult::Failure, Vec::new());
            },
        };
        let instance_count = instance_buffer.length as u32;
        let mut commands: Vec<RenderPassCommand> = Vec::new();
        commands.push(RenderPassCommand::SetVertexBuffer { slot: 0 });
        commands.push(RenderPassCommand::SetVertexBuffer { slot: 1 });
        match mesh.buffer_info {
            MeshBufferInfo::Indexed { count } => {
                commands.push(RenderPassCommand::SetIndexBuffer);
                commands.push(RenderPassCommand::DrawIndexed {
                    index_start: 0,
                    index_end: count,
                    base_vertex: 0,
                    instance_start: 0,
                    instance_end: instance_count,
                });
            },
            MeshBufferInfo::NonIndexed { vertex_count } => {
                commands.push(RenderPassCommand::Draw {
                    vertex_start: 0,
                    vertex_end: vertex_count,
                    instance_start: 0,
                    instance_end: instance_count,
                });
            },
        }
        proof {
            assert(commands@ =~= spec_draw_commands(mesh.buffer_info, instance_buffer.length as u32));
        }
        (RenderCommandResult::Success, commands)
    }
}

} // verus!
