use boids::application::{ApplicationState, Phase, INITIAL_BOID_COUNT, POPULATION_SEED};
use boids::camera::CameraKey;
use boids::mesh::{triangle_indices, MESH_INDEX_COUNT, MESH_VERTEX_COUNT};
use boids::params::SimulationParams;
use boids::schedule::{compute_workgroup_count, Command, WORKGROUP_SIZE};

fn params() -> SimulationParams {
    SimulationParams {
        separation_reach: 0x4080_0000,
        separation_scale: 0x3F80_0000,
        alignement_reach: 0x3F80_0000,
        alignement_scale: 0x4060_0000,
        cohesion_reach: 0x4080_0000,
        cohesion_scale: 0x4040_0000,
        color_mult: 0x3F80_0000,
        step_mult: 0x3F80_0000,
        center_attraction: 0x3D4C_CCCD,
    }
}

#[test]
fn workgroup_count_examples() {
    assert_eq!(WORKGROUP_SIZE, 64);
    assert_eq!(compute_workgroup_count(1000), 16);
    assert_eq!(compute_workgroup_count(0), 0);
    assert_eq!(compute_workgroup_count(1), 1);
    assert_eq!(compute_workgroup_count(64), 1);
    assert_eq!(compute_workgroup_count(65), 2);
    assert_eq!(compute_workgroup_count(u32::MAX), 67_108_864);
}

#[test]
fn workgroups_computed_once_at_init() {
    let mut s = ApplicationState::init(params(), 1000, 1, 800, 600);
    assert_eq!(s.workgroup_count, 16);
    for _ in 0..5 {
        let (cmds, _) = s.update(1);
        match cmds[cmds.len() - 1] {
            Command::Dispatch { workgroups, .. } => assert_eq!(workgroups, 16),
            _ => panic!("last update command must be the dispatch"),
        }
        s.render();
        assert_eq!(s.workgroup_count, 16);
    }
}

#[test]
fn slot_parity_alternates() {
    let mut s = ApplicationState::init(params(), 10, 1, 800, 600);
    for frame in 0u32..6 {
        assert_eq!(s.frame, frame);
        let (cmds, _) = s.update(1);
        assert_eq!(
            cmds[cmds.len() - 1],
            Command::Dispatch {
                read_slot: (frame + 1) % 2,
                write_slot: frame % 2,
                workgroups: 1,
            }
        );
        let draw = s.render();
        assert_eq!(draw[0], Command::Draw { slot: frame % 2, instances: 10 });
        assert_eq!(draw[1], Command::Present);
    }
}

#[test]
fn params_upload_precedes_dispatch() {
    let mut s = ApplicationState::init(params(), 10, 1, 800, 600);
    let (cmds, step) = s.update(1);
    assert!(!step.moved);
    assert_eq!(cmds.len(), 2);
    assert_eq!(cmds[0], Command::UploadParams);
    assert!(matches!(cmds[1], Command::Dispatch { .. }));
    s.render();

    s.input(Some(CameraKey::Right), true);
    let (cmds, step) = s.update(1);
    assert!(step.moved);
    assert_eq!(cmds.len(), 3);
    assert_eq!(cmds[0], Command::UploadCamera);
    assert_eq!(cmds[1], Command::UploadParams);
    assert!(matches!(cmds[2], Command::Dispatch { .. }));
}

#[test]
fn resize_rejects_degenerate_sizes() {
    let mut s = ApplicationState::init(params(), 10, 1, 800, 600);
    assert!(!s.resize(0, 500));
    assert_eq!((s.width, s.height), (800, 600));
    assert!(!s.resize(500, 0));
    assert_eq!((s.width, s.height), (800, 600));
    assert!(!s.resize(0, 0));
    assert_eq!((s.width, s.height), (800, 600));
    assert!(s.resize(1024, 768));
    assert_eq!((s.width, s.height), (1024, 768));
}

#[test]
fn uniform_snapshot_copies_configuration() {
    let p = params();
    let u = p.create_uniforms(123);
    assert_eq!(u.delta_time, 123);
    assert_eq!(u.separation_reach, p.separation_reach);
    assert_eq!(u.separation_scale, p.separation_scale);
    assert_eq!(u.alignement_reach, p.alignement_reach);
    assert_eq!(u.alignement_scale, p.alignement_scale);
    assert_eq!(u.cohesion_reach, p.cohesion_reach);
    assert_eq!(u.cohesion_scale, p.cohesion_scale);
    assert_eq!(u.color_mult, p.color_mult);
    assert_eq!(u.center_attraction, p.center_attraction);
}

#[test]
fn update_replaces_only_delta() {
    let mut s = ApplicationState::init(params(), 10, 1, 800, 600);
    let before = s.simu_uniform;
    s.update(55);
    assert_eq!(s.simu_uniform.delta_time, 55);
    assert_eq!(s.simu_uniform.separation_reach, before.separation_reach);
    assert_eq!(s.simu_uniform.cohesion_scale, before.cohesion_scale);
    assert_eq!(s.simu_uniform.center_attraction, before.center_attraction);
}

#[test]
fn skip_render_drops_the_frame_but_keeps_parity() {
    let mut s = ApplicationState::init(params(), 10, 1, 800, 600);
    s.update(1);
    assert_eq!(s.phase, Phase::RenderPending);
    s.skip_render();
    assert_eq!(s.phase, Phase::Idle);
    assert_eq!(s.frame, 1);
    let (cmds, _) = s.update(1);
    assert_eq!(
        cmds[cmds.len() - 1],
        Command::Dispatch { read_slot: 0, write_slot: 1, workgroups: 1 }
    );
}

#[test]
fn scenario_hundred_frames() {
    let dt = (1.0f32 / 60.0).to_bits();
    let mut s = ApplicationState::init(params(), INITIAL_BOID_COUNT, POPULATION_SEED, 800, 600);
    assert_eq!(INITIAL_BOID_COUNT, 1000);
    assert_eq!(POPULATION_SEED, 42);
    for frame in 0u32..100 {
        let (cmds, _) = s.update(dt);
        assert_eq!(s.simu_uniform.delta_time, dt);
        assert_eq!(cmds[0], Command::UploadParams);
        let draw = s.render();
        assert_eq!(draw[0], Command::Draw { slot: frame % 2, instances: 1000 });
        assert_eq!(s.store.slot_len(0), 1000);
        assert_eq!(s.store.slot_len(1), 1000);
    }
    assert_eq!(s.frame, 100);
}

#[test]
fn mesh_is_two_triangles_over_four_vertices() {
    let idx = triangle_indices();
    assert_eq!(idx, vec![0, 1, 2, 2, 3, 0]);
    assert_eq!(idx.len() as u32, MESH_INDEX_COUNT);
    assert!(idx.iter().all(|i| *i < MESH_VERTEX_COUNT));
}

#[test]
fn bind_group_slots_never_alias() {
    let s = ApplicationState::init(params(), 4, 1, 800, 600);
    assert_eq!(s.store.bind_group_for(0), (0, 1));
    assert_eq!(s.store.bind_group_for(1), (1, 0));
    assert_eq!(s.store.bind_group_for(2), (0, 1));
}
