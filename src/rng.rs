use crate::seed::{hash3_spec, key_seed};
use rand::rngs::SmallRng;
use rand::SeedableRng;
use vstd::prelude::*;

verus! {

#[verifier::external_type_specification]
#[verifier::external_body]
pub struct ExSmallRng(SmallRng);

/// The generator that `SmallRng::seed_from_u64` makes from `seed`: its state is a function
/// of the seed alone.
pub uninterp spec fn seeded_small_rng(seed: u64) -> SmallRng;

/// Relies on rand's `SeedableRng::seed_from_u64` for `SmallRng`: a generator started from
/// the given seed.
#[verifier::external_body]
fn small_rng_from_seed(seed: u64) -> (r: SmallRng)
    ensures
        r == seeded_small_rng(seed),
{
    SmallRng::seed_from_u64(seed)
}

/// The random generator of one noise pass, started from the seed that `key_seed` derives
/// from the global seed, the pass's tag and the frame number. No generator state passes
/// from one pass to another.
pub fn pass_rng(seed: u64, purpose: u64, frame_num: usize) -> (r: SmallRng)
    ensures
        r == seeded_small_rng(hash3_spec(seed, purpose, frame_num as u64)),
{
    let pass_seed = key_seed(seed, purpose, frame_num);
    small_rng_from_seed(pass_seed)
}

} // verus!
