//! The per-agent record. Its components are opaque 32-bit lanes: the GPU
//! stages interpret them as IEEE-754 floats, but this core only guarantees
//! the record layout (two position lanes, two speed lanes, three color lanes,
//! one padding lane for 16-byte alignment) and where each record lives.

use vstd::prelude::*;
use crate::rng::{stream_word, SeededRng};

verus! {

/// Pseudorandom words one freshly generated agent consumes, one per
/// non-padding lane.
pub const WORDS_PER_BOID: u32 = 7;

/// One simulated agent: position, speed and color, plus padding. Instances
/// are plain data; after initialization they are mutated only by the compute
/// kernel, on the GPU.
#[derive(Clone, Copy, Debug, PartialEq, Eq, Structural)]
pub struct Boid {
    pub position_x: u32,
    pub position_y: u32,
    pub speed_x: u32,
    pub speed_y: u32,
    pub color_r: u32,
    pub color_g: u32,
    pub color_b: u32,
    pub pad: u32,
}

/// The agent built from seven consecutive words of `seed`'s stream starting
/// at position `k`, in lane order. The padding lane is always zero.
pub open spec fn boid_from_stream(seed: u64, k: int) -> Boid {
    Boid {
        position_x: stream_word(seed, k),
        position_y: stream_word(seed, k + 1),
        speed_x: stream_word(seed, k + 2),
        speed_y: stream_word(seed, k + 3),
        color_r: stream_word(seed, k + 4),
        color_g: stream_word(seed, k + 5),
        color_b: stream_word(seed, k + 6),
        pad: 0,
    }
}

impl Boid {
    /// Builds an agent from explicit lane values, zero padding.
    pub fn new(position: [u32; 2], speed: [u32; 2], color: [u32; 3]) -> (b: Boid)
        ensures
            b.position_x == position[0],
            b.position_y == position[1],
            b.speed_x == speed[0],
            b.speed_y == speed[1],
            b.color_r == color[0],
            b.color_g == color[1],
            b.color_b == color[2],
            b.pad == 0,
    {
        Boid {
            position_x: position[0],
            position_y: position[1],
            speed_x: speed[0],
            speed_y: speed[1],
            color_r: color[0],
            color_g: color[1],
            color_b: color[2],
            pad: 0,
        }
    }

    /// Draws the next agent from the generator: seven consecutive stream
    /// words, so the result is determined by the generator's seed and
    /// position alone.
    pub fn rand_new(rng: &mut SeededRng) -> (b: Boid)
        requires
            old(rng).drawn() + WORDS_PER_BOID <= u64::MAX,
        ensures
            final(rng).seed() == old(rng).seed(),
            final(rng).drawn() == old(rng).drawn() + WORDS_PER_BOID,
            b == boid_from_stream(old(rng).seed(), old(rng).drawn() as int),
    {
        let position_x = rng.next_word();
        let position_y = rng.next_word();
        let speed_x = rng.next_word();
        let speed_y = rng.next_word();
        let color_r = rng.next_word();
        let color_g = rng.next_word();
        let color_b = rng.next_word();
        Boid { position_x, position_y, speed_x, speed_y, color_r, color_g, color_b, pad: 0 }
    }
}

} // verus!
