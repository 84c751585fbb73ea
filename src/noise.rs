use crate::seed::{hash3_spec, Seeder};
use vstd::prelude::*;

verus! {

/// Tag of the hash that gives the jitter of a noise cell's boundary.
pub const JITTER_SEED: u64 = 1;

/// Tag of the hash that gives the value at a noise cell's boundary.
pub const VALUE_SEED: u64 = 2;

/// The pseudo-random bits of cell `coord` of the value noise with seed `seed`, for the use
/// that `purpose` tags. They depend on these three values alone.
pub fn cell_hash(coord: u64, seed: u64, purpose: u64) -> (r: u64)
    ensures
        r == hash3_spec(coord, seed, purpose),
{
    Seeder::new(coord).mix_u64(seed).mix_u64(purpose).finalize()
}

/// The cell `step` cells away from `coord` (one of -1, 0, 1, 2), wrapping around at the
/// ends of the 64-bit range.
pub fn neighbour_cell(coord: u64, step: i8) -> (r: u64)
    requires
        -1 <= step <= 2,
    ensures
        r as int == (coord as int + step as int) % 0x1_0000_0000_0000_0000int,
{
    if step < 0 {
        coord.wrapping_sub(1)
    } else {
        coord.wrapping_add(step as u64)
    }
}

} // verus!
