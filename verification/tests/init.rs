use boids::application::ApplicationState;
use boids::boid::Boid;
use boids::params::SimulationParams;
use boids::rng::SeededRng;
use boids::store::AgentStore;
use rand::{RngCore, SeedableRng};

fn params() -> SimulationParams {
    SimulationParams {
        separation_reach: 0x4080_0000,
        separation_scale: 0x3F80_0000,
        alignement_reach: 0x3F80_0000,
        alignement_scale: 0x4060_0000,
        cohesion_reach: 0x4080_0000,
        cohesion_scale: 0x4040_0000,
        color_mult: 0x3F80_0000,
        step_mult: 0x3F80_0000,
        center_attraction: 0x3D4C_CCCD,
    }
}

#[test]
fn population_deterministic() {
    let a = AgentStore::initialize(100, 42);
    let b = AgentStore::initialize(100, 42);
    assert_eq!(a.slot_len(0), 100);
    assert_eq!(b.slot_len(0), 100);
    for i in 0..100 {
        assert_eq!(a.record(0, i), b.record(0, i));
        assert_eq!(a.record(1, i), b.record(1, i));
    }
}

#[test]
fn population_matches_pcg_stream() {
    let store = AgentStore::initialize(3, 42);
    let mut reference = rand_pcg::Pcg64::seed_from_u64(42);
    for i in 0..3 {
        let b = store.record(0, i);
        assert_eq!(b.position_x, reference.next_u32());
        assert_eq!(b.position_y, reference.next_u32());
        assert_eq!(b.speed_x, reference.next_u32());
        assert_eq!(b.speed_y, reference.next_u32());
        assert_eq!(b.color_r, reference.next_u32());
        assert_eq!(b.color_g, reference.next_u32());
        assert_eq!(b.color_b, reference.next_u32());
        assert_eq!(b.pad, 0);
    }
}

#[test]
fn slots_initialized_identically() {
    let store = AgentStore::initialize(25, 7);
    assert_eq!(store.slot_len(0), 25);
    assert_eq!(store.slot_len(1), 25);
    for i in 0..25 {
        assert_eq!(store.record(0, i), store.record(1, i));
    }
}

#[test]
fn different_seeds_differ() {
    let a = AgentStore::initialize(1, 1);
    let b = AgentStore::initialize(1, 2);
    assert_ne!(a.record(0, 0), b.record(0, 0));
}

#[test]
fn boid_new_lanes() {
    let b = Boid::new([1, 2], [3, 4], [5, 6, 7]);
    assert_eq!(b.position_x, 1);
    assert_eq!(b.position_y, 2);
    assert_eq!(b.speed_x, 3);
    assert_eq!(b.speed_y, 4);
    assert_eq!(b.color_r, 5);
    assert_eq!(b.color_g, 6);
    assert_eq!(b.color_b, 7);
    assert_eq!(b.pad, 0);
}

#[test]
fn rand_new_is_a_function_of_seed_and_position() {
    let mut g1 = SeededRng::new(9);
    let first = Boid::rand_new(&mut g1);
    let second = Boid::rand_new(&mut g1);
    let mut g2 = SeededRng::new(9);
    assert_eq!(first, Boid::rand_new(&mut g2));
    assert_eq!(second, Boid::rand_new(&mut g2));
    assert_ne!(first, second);
}

#[test]
fn init_session_population() {
    let s = ApplicationState::init(params(), 1000, 42, 800, 600);
    assert_eq!(s.boid_count, 1000);
    assert_eq!(s.store.slot_len(0), 1000);
    assert_eq!(s.store.slot_len(1), 1000);
    let t = ApplicationState::init(params(), 1000, 42, 300, 200);
    for i in 0..1000 {
        assert_eq!(s.store.record(0, i), t.store.record(0, i));
    }
}
