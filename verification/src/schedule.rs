//! Frame scheduling: which agent slot each pipeline stage touches at a given
//! frame, how many compute work-groups a dispatch uses, and the exact order of
//! the commands a frame enqueues on the submission queue.

use vstd::prelude::*;
use vstd::arithmetic::div_mod::lemma_fundamental_div_mod;

verus! {

/// Number of kernel invocations batched into one compute work-group; fixed by
/// the compute kernel.
pub const WORKGROUP_SIZE: u32 = 64;

/// Minimum wall-clock interval between presented frames, enforced by a fixed
/// post-present delay. A crude substitute for presentation-driven pacing,
/// kept deliberately.
pub const FRAME_PACING_MILLIS: u64 = 16;

/// One unit of work enqueued on the single submission queue. The queue
/// preserves this order, which is the only synchronization the design relies
/// on: no fences or barriers.
#[derive(Clone, Copy, Debug, PartialEq, Eq, Structural)]
pub enum Command {
    /// Rewrite the simulation-parameter uniform block (including the frame's
    /// delta time) in GPU-visible memory.
    UploadParams,
    /// Rewrite the camera uniform block in GPU-visible memory.
    UploadCamera,
    /// One compute dispatch: reads agent slot `read_slot`, writes agent slot
    /// `write_slot`, over `workgroups` work-groups.
    Dispatch { read_slot: u32, write_slot: u32, workgroups: u32 },
    /// One instanced draw call sourcing agent slot `slot`, one instance per
    /// agent.
    Draw { slot: u32, instances: u32 },
    /// Present the frame buffer to the surface.
    Present,
}

/// Slot the simulation stage reads at the given frame.
pub open spec fn read_slot_of(frame: int) -> int {
    (frame + 1) % 2
}

/// Slot the simulation stage writes at the given frame; also the slot the
/// render stage draws, so the visible frame always shows freshly simulated
/// agents.
pub open spec fn write_slot_of(frame: int) -> int {
    frame % 2
}

/// Work-group count for a dispatch over `count` agents: the ceiling of
/// `count / WORKGROUP_SIZE`.
pub open spec fn workgroups_for(count: u32) -> int {
    (count + WORKGROUP_SIZE - 1) / (WORKGROUP_SIZE as int)
}

/// The compute dispatch enqueued at the given frame.
pub open spec fn dispatch_command(frame: u32, workgroups: u32) -> Command {
    Command::Dispatch {
        read_slot: read_slot_of(frame as int) as u32,
        write_slot: write_slot_of(frame as int) as u32,
        workgroups,
    }
}

/// The draw call enqueued at the given frame: it sources exactly the slot the
/// frame's dispatch wrote.
pub open spec fn draw_command(frame: u32, instances: u32) -> Command {
    Command::Draw { slot: write_slot_of(frame as int) as u32, instances }
}

/// Commands enqueued while advancing the simulation at a frame: the camera
/// upload when the camera moved, then the parameter upload, then the compute
/// dispatch.
pub open spec fn update_commands(camera_dirty: bool, frame: u32, workgroups: u32) -> Seq<Command> {
    if camera_dirty {
        seq![Command::UploadCamera, Command::UploadParams, dispatch_command(frame, workgroups)]
    } else {
        seq![Command::UploadParams, dispatch_command(frame, workgroups)]
    }
}

/// Commands enqueued while rendering a frame: the draw, then presentation.
pub open spec fn render_commands(frame: u32, instances: u32) -> Seq<Command> {
    seq![draw_command(frame, instances), Command::Present]
}

/// Everything one displayed frame enqueues, in submission order.
pub open spec fn frame_trace(camera_dirty: bool, frame: u32, workgroups: u32, instances: u32) -> Seq<Command> {
    update_commands(camera_dirty, frame, workgroups) + render_commands(frame, instances)
}

/// Computes the work-group count for `count` agents. Called once at
/// initialization; the result is stored and reused every frame.
pub fn compute_workgroup_count(count: u32) -> (wg: u32)
    ensures
        wg as int == workgroups_for(count),
{
    (((count as u64) + ((WORKGROUP_SIZE - 1) as u64)) / (WORKGROUP_SIZE as u64)) as u32
}

/// Slot roles strictly alternate with frame parity: each frame writes the slot
/// it does not read, and each frame reads exactly the slot the previous frame
/// wrote.
pub proof fn lemma_slot_parity_alternates(frame: int)
    requires
        frame >= 0,
    ensures
        write_slot_of(frame) == frame % 2,
        read_slot_of(frame) == (frame + 1) % 2,
        0 <= write_slot_of(frame) < 2,
        0 <= read_slot_of(frame) < 2,
        read_slot_of(frame) != write_slot_of(frame),
        read_slot_of(frame + 1) == write_slot_of(frame),
        write_slot_of(frame + 1) == read_slot_of(frame),
{
}

/// The work-group count is exactly the ceiling of `count / WORKGROUP_SIZE`:
/// large enough that every agent is covered, and minimal.
pub proof fn lemma_workgroups_exact(count: u32)
    ensures
        WORKGROUP_SIZE * workgroups_for(count) >= count,
        count > 0 ==> WORKGROUP_SIZE * (workgroups_for(count) - 1) < count,
        count == 0 ==> workgroups_for(count) == 0,
{
    lemma_fundamental_div_mod(count + WORKGROUP_SIZE - 1, WORKGROUP_SIZE as int);
}

/// In every frame's update sequence the parameter upload immediately precedes
/// the dispatch, and nothing before the final position is a dispatch: the
/// kernel always observes the current frame's delta time.
pub proof fn lemma_params_upload_precedes_dispatch(camera_dirty: bool, frame: u32, workgroups: u32)
    ensures
        ({
            let cmds = update_commands(camera_dirty, frame, workgroups);
            &&& cmds.len() >= 2
            &&& cmds[cmds.len() - 2] == Command::UploadParams
            &&& cmds[cmds.len() - 1] == dispatch_command(frame, workgroups)
            &&& forall|k: int| 0 <= k < cmds.len() - 1 ==> !(cmds[k] is Dispatch)
        }),
{
    let cmds = update_commands(camera_dirty, frame, workgroups);
    assert forall|k: int| 0 <= k < cmds.len() - 1 implies !(cmds[k] is Dispatch) by {
        if camera_dirty {
            assert(cmds[0] == Command::UploadCamera);
            assert(cmds[1] == Command::UploadParams);
        } else {
            assert(cmds[0] == Command::UploadParams);
        }
    }
}

/// In a full frame trace the dispatch precedes the draw that consumes its
/// output, and the draw sources exactly the slot the dispatch wrote.
pub proof fn lemma_dispatch_precedes_draw(camera_dirty: bool, frame: u32, workgroups: u32, instances: u32)
    ensures
        ({
            let up = update_commands(camera_dirty, frame, workgroups);
            let trace = frame_trace(camera_dirty, frame, workgroups, instances);
            &&& trace.len() == up.len() + 2
            &&& trace[up.len() - 1] == dispatch_command(frame, workgroups)
            &&& trace[up.len() as int] == draw_command(frame, instances)
            &&& trace[up.len() + 1int] == Command::Present
            &&& draw_command(frame, instances) == (Command::Draw {
                slot: write_slot_of(frame as int) as u32,
                instances,
            })
        }),
{
}

} // verus!
