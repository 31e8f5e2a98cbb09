//! The double-buffered agent store: exactly two equally sized slots holding
//! the agent records. Parity selects which slot a frame reads and which it
//! writes; the two slots are initialized identically from a seeded generator
//! and are never resized.

use vstd::prelude::*;
use crate::boid::{boid_from_stream, Boid};
use crate::rng::SeededRng;

verus! {

/// The agent population generated from `seed`: agent `i` is built from the
/// seven stream words starting at position `7 * i`. A pure
/// function of seed and count, which is what makes initialization
/// deterministic.
pub open spec fn population(seed: u64, count: int) -> Seq<Boid> {
    Seq::new(count as nat, |i: int| boid_from_stream(seed, 7 * i))
}

/// Two equally sized agent slots. Which one a pipeline stage touches in a
/// given frame is decided by parity alone; no operation reads and writes the
/// same slot in one frame.
pub struct AgentStore {
    slot0: Vec<Boid>,
    slot1: Vec<Boid>,
}

impl AgentStore {
    /// The records held by the slot of the given parity.
    pub closed spec fn slot(&self, parity: int) -> Seq<Boid> {
        if parity % 2 == 0 {
            self.slot0@
        } else {
            self.slot1@
        }
    }

    /// Both slots always hold the same number of records.
    pub open spec fn wf(&self) -> bool {
        self.slot(0).len() == self.slot(1).len()
    }

    /// Number of agents per slot.
    pub open spec fn agent_count(&self) -> nat {
        self.slot(0).len()
    }

    /// Both slots hold exactly the population generated from `seed`.
    pub open spec fn is_init(&self, seed: u64, count: int) -> bool {
        &&& self.slot(0) == population(seed, count)
        &&& self.slot(1) == population(seed, count)
    }

    /// Creates the store: both slots populated identically with `count`
    /// agents drawn from the stream of `seed`.
    pub fn initialize(count: u32, seed: u64) -> (store: AgentStore)
        ensures
            store.is_init(seed, count as int),
            store.wf(),
            store.agent_count() == count,
    {
        let mut rng = SeededRng::new(seed);
        let mut slot0: Vec<Boid> = Vec::new();
        let mut i: u32 = 0;
        while i < count
            invariant
                i <= count,
                rng.seed() == seed,
                rng.drawn() == 7 * (i as u64),
                slot0@ == population(seed, i as int),
            decreases count - i,
        {
            let b = Boid::rand_new(&mut rng);
            slot0.push(b);
            i = i + 1;
            proof {
                assert(slot0@ =~= population(seed, i as int));
            }
        }
        let mut slot1: Vec<Boid> = Vec::new();
        let mut j: usize = 0;
        while j < slot0.len()
            invariant
                j <= slot0.len(),
                slot1@ == slot0@.subrange(0, j as int),
            decreases slot0.len() - j,
        {
            let b = slot0[j];
            slot1.push(b);
            j = j + 1;
            proof {
                assert(slot1@ =~= slot0@.subrange(0, j as int));
            }
        }
        proof {
            assert(slot1@ =~= slot0@);
        }
        AgentStore { slot0, slot1 }
    }

    /// The slot pair a dispatch of the given parity binds: it reads the slot
    /// of the parity and writes the other one, so reader and writer never
    /// alias.
    pub fn bind_group_for(&self, parity: u32) -> (slots: (u32, u32))
        ensures
            slots.0 == parity % 2,
            slots.1 == (parity + 1) % 2,
            slots.0 != slots.1,
    {
        let p = parity % 2;
        proof {
            assert((p + 1) % 2 == (parity + 1) % 2) by {
                assert(p == parity % 2);
            }
        }
        (p, (p + 1) % 2)
    }

    /// Number of records in the slot of the given parity.
    pub fn slot_len(&self, parity: u32) -> (n: usize)
        ensures
            n == self.slot(parity as int).len(),
    {
        if parity % 2 == 0 {
            self.slot0.len()
        } else {
            self.slot1.len()
        }
    }

    /// The record at `index` of the slot of the given parity.
    pub fn record(&self, parity: u32, index: usize) -> (b: Boid)
        requires
            index < self.slot(parity as int).len(),
        ensures
            b == self.slot(parity as int)[index as int],
    {
        if parity % 2 == 0 {
            self.slot0[index]
        } else {
            self.slot1[index]
        }
    }
}

/// The agent count is invariant: both slots always hold the same number of
/// records, and no operation of the store or of the frame driver resizes
/// them.
pub proof fn lemma_agent_count_invariant(store: AgentStore)
    requires
        store.wf(),
    ensures
        store.slot(0).len() == store.agent_count(),
        store.slot(1).len() == store.agent_count(),
{
}

/// Initialization is deterministic: two stores initialized from the same
/// seed and count hold identical records, in both slots, independent of
/// anything outside `(seed, count)`.
pub proof fn lemma_init_deterministic(a: AgentStore, b: AgentStore, seed: u64, count: u32)
    requires
        a.is_init(seed, count as int),
        b.is_init(seed, count as int),
    ensures
        a.slot(0) == b.slot(0),
        a.slot(1) == b.slot(1),
        a.slot(0) == a.slot(1),
{
}

} // verus!
