//! The frame driver: owns the agent store, the uniform snapshot and the
//! camera controller, and sequences each frame's work.
//!
//! One displayed frame is one cycle: `update` advances the simulation (camera
//! upload if the camera moved, then the parameter upload, then the compute
//! dispatch — in that submission order), `render` draws the slot the dispatch
//! just wrote and presents. Frames are strictly sequential: the next frame's
//! uploads cannot begin until the current frame's draw was submitted or the
//! frame was abandoned after a transient surface failure.

use vstd::prelude::*;
use crate::camera::{after_event, camera_step_of, CameraController, CameraKey, CameraStep};
use crate::camera::{MOVE_SPEED_LANE, ZOOM_SPEED_LANE};
use crate::params::{with_delta, SimulationParams, SimuUniforms};
use crate::schedule::{compute_workgroup_count, dispatch_command, render_commands, update_commands};
use crate::schedule::{workgroups_for, Command};
use crate::store::AgentStore;

verus! {

/// Number of agents the simulation starts with.
pub const INITIAL_BOID_COUNT: u32 = 1000;

/// Seed of the generator the initial population is drawn from.
pub const POPULATION_SEED: u64 = 42;

/// Where the frame driver stands in its cycle.
#[derive(Clone, Copy, Debug, PartialEq, Eq, Structural)]
pub enum Phase {
    /// Between frames: the next step is advancing the simulation.
    Idle,
    /// This frame's uploads and compute dispatch are enqueued: the next step
    /// is the draw (or abandoning the frame on a surface failure).
    RenderPending,
}

/// The simulation session: agent store, parameter and camera channels, and
/// the frame counter that drives slot parity.
pub struct ApplicationState {
    pub simulation_params: SimulationParams,
    pub simu_uniform: SimuUniforms,
    pub store: AgentStore,
    pub camera_controller: CameraController,
    pub boid_count: u32,
    pub workgroup_count: u32,
    pub frame: u32,
    pub width: u32,
    pub height: u32,
    pub phase: Phase,
}

impl ApplicationState {
    /// The session invariant: the two slots hold `boid_count` records each,
    /// and the work-group count is the one computed at initialization —
    /// `update` reuses it without recomputing.
    pub open spec fn wf(&self) -> bool {
        &&& self.store.wf()
        &&& self.store.agent_count() == self.boid_count
        &&& self.workgroup_count as int == workgroups_for(self.boid_count)
        &&& (self.phase == Phase::RenderPending ==> self.frame >= 1)
    }

    /// Creates the session: the store populated deterministically from
    /// `seed`, the work-group count computed once, the uniform snapshot
    /// holding a zero delta, the camera controller with no key held, and the
    /// frame counter at zero.
    pub fn init(simulation_params: SimulationParams, boid_count: u32, seed: u64, width: u32, height: u32) -> (s: ApplicationState)
        ensures
            s.wf(),
            s.store.is_init(seed, boid_count as int),
            s.boid_count == boid_count,
            s.workgroup_count as int == workgroups_for(boid_count),
            s.frame == 0,
            s.phase == Phase::Idle,
            s.simulation_params == simulation_params,
            s.simu_uniform == simulation_params.spec_uniforms(0),
            s.camera_controller == crate::camera::controller_initial(MOVE_SPEED_LANE, ZOOM_SPEED_LANE),
            s.width == width,
            s.height == height,
    {
        let store = AgentStore::initialize(boid_count, seed);
        let workgroup_count = compute_workgroup_count(boid_count);
        let simu_uniform = simulation_params.create_uniforms(0);
        let camera_controller = CameraController::new(MOVE_SPEED_LANE, ZOOM_SPEED_LANE);
        ApplicationState {
            simulation_params,
            simu_uniform,
            store,
            camera_controller,
            boid_count,
            workgroup_count,
            frame: 0,
            width,
            height,
            phase: Phase::Idle,
        }
    }

    /// Accepts a new viewport size only when both dimensions are strictly
    /// positive; degenerate sizes are rejected and leave the session — and
    /// so the GPU surface configuration — untouched.
    pub fn resize(&mut self, width: u32, height: u32) -> (reconfigured: bool)
        ensures
            reconfigured == (width > 0 && height > 0),
            final(self).width == (if width > 0 && height > 0 { width } else { old(self).width }),
            final(self).height == (if width > 0 && height > 0 { height } else { old(self).height }),
            final(self).simulation_params == old(self).simulation_params,
            final(self).simu_uniform == old(self).simu_uniform,
            final(self).store == old(self).store,
            final(self).camera_controller == old(self).camera_controller,
            final(self).boid_count == old(self).boid_count,
            final(self).workgroup_count == old(self).workgroup_count,
            final(self).frame == old(self).frame,
            final(self).phase == old(self).phase,
            old(self).wf() ==> final(self).wf(),
    {
        if width > 0 && height > 0 {
            self.width = width;
            self.height = height;
            true
        } else {
            false
        }
    }

    /// Routes an input event to the camera controller; everything else of
    /// the session is untouched.
    pub fn input(&mut self, key: Option<CameraKey>, pressed: bool) -> (handled: bool)
        ensures
            handled == (key is Some),
            final(self).camera_controller == after_event(old(self).camera_controller, key, pressed),
            final(self).simulation_params == old(self).simulation_params,
            final(self).simu_uniform == old(self).simu_uniform,
            final(self).store == old(self).store,
            final(self).boid_count == old(self).boid_count,
            final(self).workgroup_count == old(self).workgroup_count,
            final(self).frame == old(self).frame,
            final(self).width == old(self).width,
            final(self).height == old(self).height,
            final(self).phase == old(self).phase,
            old(self).wf() ==> final(self).wf(),
    {
        self.camera_controller.process_events(key, pressed)
    }

    /// Advances the simulation by one frame: decides the camera action,
    /// replaces the delta-time lane of the uniform snapshot, and returns the
    /// commands to enqueue, in submission order — the camera upload when the
    /// camera moved, then the parameter upload, then the compute dispatch of
    /// this frame's parity. Increments the frame counter; the agent store and
    /// the work-group count are untouched.
    pub fn update(&mut self, delta_time: u32) -> (out: (Vec<Command>, CameraStep))
        requires
            old(self).phase == Phase::Idle,
            old(self).frame < u32::MAX,
        ensures
            out.1 == camera_step_of(old(self).camera_controller),
            out.0@ == update_commands(out.1.moved, old(self).frame, old(self).workgroup_count),
            final(self).frame == old(self).frame + 1,
            final(self).phase == Phase::RenderPending,
            final(self).simu_uniform == with_delta(old(self).simu_uniform, delta_time),
            final(self).simulation_params == old(self).simulation_params,
            final(self).store == old(self).store,
            final(self).camera_controller == old(self).camera_controller,
            final(self).boid_count == old(self).boid_count,
            final(self).workgroup_count == old(self).workgroup_count,
            final(self).width == old(self).width,
            final(self).height == old(self).height,
            old(self).wf() ==> final(self).wf(),
    {
        let step = self.camera_controller.update_camera();
        let mut cmds: Vec<Command> = Vec::new();
        if step.moved {
            cmds.push(Command::UploadCamera);
        }
        self.simu_uniform.update(delta_time);
        cmds.push(Command::UploadParams);
        let write_slot = self.frame % 2;
        let parity = (write_slot + 1) % 2;
        let slots = self.store.bind_group_for(parity);
        cmds.push(Command::Dispatch {
            read_slot: slots.0,
            write_slot: slots.1,
            workgroups: self.workgroup_count,
        });
        proof {
            assert(parity as int == (self.frame as int + 1) % 2);
            assert(slots.1 as int == self.frame as int % 2);
            assert(cmds@ =~= update_commands(step.moved, self.frame, self.workgroup_count));
        }
        self.frame = self.frame + 1;
        self.phase = Phase::RenderPending;
        (cmds, step)
    }

    /// Draws the frame that `update` just simulated and presents it: the
    /// draw sources exactly the slot the dispatch wrote, with one instance
    /// per agent, and precedes presentation. Returns the commands to enqueue,
    /// in submission order.
    pub fn render(&mut self) -> (cmds: Vec<Command>)
        requires
            old(self).wf(),
            old(self).phase == Phase::RenderPending,
        ensures
            cmds@ == render_commands((old(self).frame - 1) as u32, old(self).boid_count),
            final(self).phase == Phase::Idle,
            final(self).simulation_params == old(self).simulation_params,
            final(self).simu_uniform == old(self).simu_uniform,
            final(self).store == old(self).store,
            final(self).camera_controller == old(self).camera_controller,
            final(self).boid_count == old(self).boid_count,
            final(self).workgroup_count == old(self).workgroup_count,
            final(self).frame == old(self).frame,
            final(self).width == old(self).width,
            final(self).height == old(self).height,
            final(self).wf(),
    {
        let simulated = self.frame - 1;
        let slot = simulated % 2;
        let mut cmds: Vec<Command> = Vec::new();
        cmds.push(Command::Draw { slot, instances: self.boid_count });
        cmds.push(Command::Present);
        proof {
            assert(cmds@ =~= render_commands(simulated, self.boid_count));
        }
        self.phase = Phase::Idle;
        cmds
    }

    /// Abandons the frame after a transient surface failure (`Outdated`,
    /// `Timeout`): nothing is drawn, the cycle returns to idle, and the next
    /// cycle retries. The dropped frame's dispatch already ran, so the frame
    /// counter — and with it slot parity — stays advanced.
    pub fn skip_render(&mut self)
        requires
            old(self).phase == Phase::RenderPending,
        ensures
            final(self).phase == Phase::Idle,
            final(self).simulation_params == old(self).simulation_params,
            final(self).simu_uniform == old(self).simu_uniform,
            final(self).store == old(self).store,
            final(self).camera_controller == old(self).camera_controller,
            final(self).boid_count == old(self).boid_count,
            final(self).workgroup_count == old(self).workgroup_count,
            final(self).frame == old(self).frame,
            final(self).width == old(self).width,
            final(self).height == old(self).height,
            old(self).wf() ==> final(self).wf(),
    {
        self.phase = Phase::Idle;
    }
}

/// One whole displayed frame enqueues, across `update` and `render`, the
/// parameter upload before the dispatch and the dispatch before the draw,
/// with the dispatch of frame `N` reading slot `(N + 1) % 2` and writing slot
/// `N % 2` — the slot the draw then sources.
pub proof fn lemma_frame_submission_order(s: ApplicationState, dirty: bool)
    requires
        s.wf(),
    ensures
        ({
            let up = update_commands(dirty, s.frame, s.workgroup_count);
            let re = render_commands(s.frame, s.boid_count);
            &&& up[up.len() - 2] == Command::UploadParams
            &&& up[up.len() - 1] == dispatch_command(s.frame, s.workgroup_count)
            &&& re[0] == (Command::Draw {
                slot: crate::schedule::write_slot_of(s.frame as int) as u32,
                instances: s.boid_count,
            })
            &&& re[1] == Command::Present
        }),
{
    crate::schedule::lemma_params_upload_precedes_dispatch(dirty, s.frame, s.workgroup_count);
    crate::schedule::lemma_dispatch_precedes_draw(dirty, s.frame, s.workgroup_count, s.boid_count);
}

} // verus!
