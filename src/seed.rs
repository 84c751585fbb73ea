use vstd::prelude::*;
use vstd::wrapping::u64_specs::{wrapping_add, wrapping_mul};

verus! {

/// Fractional part of the golden ratio in 64-bit fixed point.
pub const GOLDEN_GAMMA: u64 = 0x9E37_79B9_7F4A_7C15;

pub const AVALANCHE_MUL_1: u64 = 0xBF58_476D_1CE4_E5B9;

pub const AVALANCHE_MUL_2: u64 = 0x94D0_49BB_1331_11EB;

/// Tags that keep the noise of each pass of the effect independent of the others.
pub const VIDEO_COMPOSITE: u64 = 0;
pub const VIDEO_CHROMA: u64 = 1;
pub const HEAD_SWITCHING: u64 = 2;
pub const HEAD_SWITCHING_PHASE: u64 = 3;
pub const VIDEO_CHROMA_PHASE: u64 = 4;
pub const EDGE_WAVE: u64 = 5;
pub const SNOW: u64 = 6;

/// A bijective 64-bit mixing function: every input bit affects every output bit.
pub open spec fn avalanche_spec(x: u64) -> u64 {
    let a = wrapping_mul(x ^ (x >> 30u64), AVALANCHE_MUL_1);
    let b = wrapping_mul(a ^ (a >> 27u64), AVALANCHE_MUL_2);
    b ^ (b >> 31u64)
}

/// The state after folding `value` into `state`.
pub open spec fn mix_spec(state: u64, value: u64) -> u64 {
    avalanche_spec(wrapping_add(state ^ value, GOLDEN_GAMMA))
}

/// The hash of three values: a seeder started from `a`, mixed with `b` then `c`, finalized.
pub open spec fn hash3_spec(a: u64, b: u64, c: u64) -> u64 {
    avalanche_spec(mix_spec(mix_spec(avalanche_spec(a), b), c))
}

pub fn avalanche(x: u64) -> (r: u64)
    ensures
        r == avalanche_spec(x),
{
    let a = (x ^ (x >> 30u64)).wrapping_mul(AVALANCHE_MUL_1);
    let b = (a ^ (a >> 27u64)).wrapping_mul(AVALANCHE_MUL_2);
    b ^ (b >> 31u64)
}

/// A stateless hash built up from 64-bit values, one at a time.
#[derive(Clone, Copy, Debug, PartialEq, Eq, Structural)]
pub struct Seeder {
    pub state: u64,
}

impl Seeder {
    pub fn new(seed: u64) -> (r: Seeder)
        ensures
            r.state == avalanche_spec(seed),
    {
        Seeder { state: avalanche(seed) }
    }

    pub fn mix_u64(self, value: u64) -> (r: Seeder)
        ensures
            r.state == mix_spec(self.state, value),
    {
        Seeder { state: avalanche((self.state ^ value).wrapping_add(GOLDEN_GAMMA)) }
    }

    pub fn finalize(self) -> (r: u64)
        ensures
            r == avalanche_spec(self.state),
    {
        avalanche(self.state)
    }
}

/// Derives the seed of one noise pass from the global seed, the pass's tag and the
/// frame number. The same three values always give the same seed.
pub fn key_seed(seed: u64, purpose: u64, frame_num: usize) -> (r: u64)
    ensures
        r == hash3_spec(seed, purpose, frame_num as u64),
{
    Seeder::new(seed).mix_u64(purpose).mix_u64(frame_num as u64).finalize()
}

} // verus!
