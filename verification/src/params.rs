//! Simulation parameters and the per-frame uniform snapshot.
//!
//! Each component is an opaque 32-bit lane: the compute kernel reads it as an
//! IEEE-754 float, but this core only moves the lanes around. The
//! configuration is set once at startup; the snapshot adds the frame's delta
//! time and is rewritten in GPU-visible memory every frame.

use vstd::prelude::*;

verus! {

/// Static tunable configuration of the flocking force law. Immutable after
/// startup; `step_mult` is carried but not part of the uniform block.
#[derive(Clone, Copy, Debug, PartialEq, Eq, Structural)]
pub struct SimulationParams {
    pub separation_reach: u32,
    pub separation_scale: u32,
    pub alignement_reach: u32,
    pub alignement_scale: u32,
    pub cohesion_reach: u32,
    pub cohesion_scale: u32,
    pub color_mult: u32,
    pub step_mult: u32,
    pub center_attraction: u32,
}

/// The uniform block the compute stage reads each frame: the configuration
/// lanes plus the frame's delta time.
#[derive(Clone, Copy, Debug, PartialEq, Eq, Structural)]
pub struct SimuUniforms {
    pub delta_time: u32,
    pub separation_reach: u32,
    pub separation_scale: u32,
    pub alignement_reach: u32,
    pub alignement_scale: u32,
    pub cohesion_reach: u32,
    pub cohesion_scale: u32,
    pub color_mult: u32,
    pub center_attraction: u32,
}

/// `u` with its delta-time lane replaced and every configuration lane kept.
pub open spec fn with_delta(u: SimuUniforms, delta_time: u32) -> SimuUniforms {
    SimuUniforms {
        delta_time,
        separation_reach: u.separation_reach,
        separation_scale: u.separation_scale,
        alignement_reach: u.alignement_reach,
        alignement_scale: u.alignement_scale,
        cohesion_reach: u.cohesion_reach,
        cohesion_scale: u.cohesion_scale,
        color_mult: u.color_mult,
        center_attraction: u.center_attraction,
    }
}

impl SimulationParams {
    /// The uniform snapshot of these parameters for a frame with the given
    /// delta time.
    pub open spec fn spec_uniforms(&self, delta_time: u32) -> SimuUniforms {
        SimuUniforms {
            delta_time,
            separation_reach: self.separation_reach,
            separation_scale: self.separation_scale,
            alignement_reach: self.alignement_reach,
            alignement_scale: self.alignement_scale,
            cohesion_reach: self.cohesion_reach,
            cohesion_scale: self.cohesion_scale,
            color_mult: self.color_mult,
            center_attraction: self.center_attraction,
        }
    }

    /// Builds the uniform block from the configuration and a delta time.
    pub fn create_uniforms(&self, delta_time: u32) -> (u: SimuUniforms)
        ensures
            u == self.spec_uniforms(delta_time),
    {
        SimuUniforms {
            delta_time,
            separation_reach: self.separation_reach,
            separation_scale: self.separation_scale,
            alignement_reach: self.alignement_reach,
            alignement_scale: self.alignement_scale,
            cohesion_reach: self.cohesion_reach,
            cohesion_scale: self.cohesion_scale,
            color_mult: self.color_mult,
            center_attraction: self.center_attraction,
        }
    }
}

impl SimuUniforms {
    /// Replaces the delta-time lane, leaving every configuration lane as it
    /// was. The delta is taken as measured: the design does not clamp it.
    pub fn update(&mut self, delta_time: u32)
        ensures
            *final(self) == with_delta(*old(self), delta_time),
    {
        self.delta_time = delta_time;
    }
}

} // verus!
