//! Deterministic pseudo-random generation and the derivation of per-phase
//! sub-seeds from one master seed.
//!
//! Every draw is a pure function of the generator state, so any value built
//! from a seed through this module is reproducible bit for bit on every run
//! and platform.

use vstd::prelude::*;

verus! {

/// The modulus of the 32-bit generator state.
pub const STATE_MODULUS: u64 = 0x1_0000_0000;

/// The state that follows `s`: one step of a linear congruential generator
/// with full 32-bit period.
pub open spec fn spec_step(s: u32) -> u32 {
    ((s * 1664525 + 1013904223) % (STATE_MODULUS as int)) as u32
}

/// The generator state after `n` steps from `s`.
pub open spec fn spec_step_n(s: u32, n: nat) -> u32
    decreases n,
{
    if n == 0 {
        s
    } else {
        spec_step(spec_step_n(s, (n - 1) as nat))
    }
}

/// The signed reading of a draw: the raw 32-bit state shifted down by the
/// signed range, so that every state maps to exactly one signed value.
pub open spec fn spec_to_signed(raw: u32) -> i32 {
    (raw - 0x8000_0000) as i32
}

/// The total signed-to-unsigned sub-seed mapping: offset by the signed
/// range.  Defined for every signed value, including both extremes.
pub open spec fn spec_sub_seed(draw: i32) -> u32 {
    (draw + 0x8000_0000) as u32
}

/// A seeded pseudo-random generator.  All draws advance the state by
/// [`spec_step`], so a generator's whole output is fixed by its seed.
pub struct Prng {
    state: u32,
}

impl Prng {
    /// The current generator state.
    pub closed spec fn state_spec(self) -> u32 {
        self.state
    }

    /// A generator seeded with `seed`.
    pub fn new(seed: u32) -> (r: Prng)
        ensures
            r.state_spec() == seed,
    {
        Prng { state: seed }
    }

    /// The next raw 32-bit draw.
    pub fn next_u32(&mut self) -> (r: u32)
        ensures
            final(self).state_spec() == spec_step(old(self).state_spec()),
            r == spec_step(old(self).state_spec()),
    {
        let stepped: u64 = ((self.state as u64) * 1664525 + 1013904223) % STATE_MODULUS;
        self.state = stepped as u32;
        self.state
    }

    /// The next draw read as a signed 32-bit integer.
    pub fn next_i32(&mut self) -> (r: i32)
        ensures
            final(self).state_spec() == spec_step(old(self).state_spec()),
            r == spec_to_signed(spec_step(old(self).state_spec())),
    {
        let raw = self.next_u32();
        ((raw as i64) - 0x8000_0000i64) as i32
    }

    /// The next draw reduced below `bound`.
    pub fn next_below(&mut self, bound: u32) -> (r: u32)
        requires
            bound > 0,
        ensures
            final(self).state_spec() == spec_step(old(self).state_spec()),
            r == spec_step(old(self).state_spec()) % bound,
            r < bound,
    {
        let raw = self.next_u32();
        raw % bound
    }

    /// The next draw reduced into the inclusive range `[min, max]`.
    pub fn next_in_range(&mut self, min: u32, max: u32) -> (r: u32)
        requires
            min <= max,
            max - min < u32::MAX,
        ensures
            final(self).state_spec() == spec_step(old(self).state_spec()),
            r == min + (spec_step(old(self).state_spec()) as int) % (max - min + 1),
            min <= r <= max,
    {
        let span: u32 = max - min + 1;
        let offset = self.next_below(span);
        min + offset
    }
}

/// The ordered sub-seeds of one world generation, one per phase, drawn in
/// this fixed order from a generator seeded with the master seed.
#[derive(Clone, Copy, Debug, PartialEq, Eq, Structural)]
pub struct SeedChain {
    /// First draw: seeds the ground-cover noise field.
    pub ground_noise: u32,
    /// Second draw: seeds the point process that places object anchors.
    pub placement: u32,
    /// Third draw: seeds the object size draws.
    pub size: u32,
    /// Fourth draw: seeds the object kind selection draws.
    pub selection: u32,
}

/// The sub-seed produced by the `n`-th draw (counted from one) of a
/// generator seeded with `master`: the signed reading of the raw draw,
/// mapped back to unsigned by the total offset mapping.
pub open spec fn spec_sub_seed_n(master: u32, n: nat) -> u32 {
    spec_sub_seed(spec_to_signed(spec_step_n(master, n)))
}

/// The sub-seed chain that `master` derives.
pub open spec fn spec_derive(master: u32) -> SeedChain {
    SeedChain {
        ground_noise: spec_sub_seed_n(master, 1),
        placement: spec_sub_seed_n(master, 2),
        size: spec_sub_seed_n(master, 3),
        selection: spec_sub_seed_n(master, 4),
    }
}

impl SeedChain {
    /// Derive the ordered sub-seed list of `master`.  Re-deriving from the
    /// same master seed reproduces the identical chain.
    pub fn derive(master: u32) -> (r: SeedChain)
        ensures
            r == spec_derive(master),
    {
        proof {
            assert(spec_step_n(master, 1) == spec_step(spec_step_n(master, 0)));
            assert(spec_step_n(master, 2) == spec_step(spec_step_n(master, 1)));
            assert(spec_step_n(master, 3) == spec_step(spec_step_n(master, 2)));
            assert(spec_step_n(master, 4) == spec_step(spec_step_n(master, 3)));
        }
        let mut prng = Prng::new(master);
        let d1 = prng.next_i32();
        let d2 = prng.next_i32();
        let d3 = prng.next_i32();
        let d4 = prng.next_i32();
        SeedChain {
            ground_noise: sub_seed_of(d1),
            placement: sub_seed_of(d2),
            size: sub_seed_of(d3),
            selection: sub_seed_of(d4),
        }
    }
}

/// The executable total signed-to-unsigned sub-seed mapping.
pub fn sub_seed_of(draw: i32) -> (r: u32)
    ensures
        r == spec_sub_seed(draw),
{
    ((draw as i64) + 0x8000_0000i64) as u32
}

/// Offsetting to signed and back returns the raw draw: the sub-seed mapping
/// loses nothing.
pub proof fn lemma_sub_seed_total(raw: u32)
    ensures
        spec_sub_seed(spec_to_signed(raw)) == raw,
{
}

} // verus!
