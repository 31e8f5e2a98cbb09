//! Core of a GPU flocking ("boids") simulator: a double-buffered agent store,
//! uniform-parameter channels, and a frame driver that sequences the compute
//! and render work submitted each frame.
//!
//! The per-agent force law, the shaders, and the windowing layer are external
//! collaborators; this crate owns the resource-management and synchronization
//! logic that keeps the simulation race-free: slot parity strictly alternates
//! between frames, parameter uploads precede the dispatch that reads them, and
//! the draw of a frame targets exactly the slot the dispatch just wrote.

pub mod application;
pub mod boid;
pub mod camera;
pub mod mesh;
pub mod params;
pub mod rng;
pub mod schedule;
pub mod store;
