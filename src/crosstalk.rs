use vstd::arithmetic::div_mod::{lemma_add_mod_noop, lemma_fundamental_div_mod};
use vstd::prelude::*;

verus! {

/// How the phase of the color subcarrier advances from one scanline to the next.
#[derive(Clone, Copy, Debug, PartialEq, Eq, Structural)]
pub enum PhaseShift {
    Degrees0,
    Degrees90,
    Degrees180,
    Degrees270,
}

/// The phase (a quarter-cycle index in 0..4) of the subcarrier at the start of a scanline.
pub open spec fn line_offset_spec(shift: PhaseShift, offset: int, field_num: int, line_num: int) -> int {
    match shift {
        PhaseShift::Degrees90 | PhaseShift::Degrees270 => (field_num + offset + line_num / 2) % 4,
        PhaseShift::Degrees180 => (2 * (((field_num + line_num) / 2) % 2) + offset) % 4,
        PhaseShift::Degrees0 => 0,
    }
}

proof fn lemma_sum_mod4(x: int, y: int, z: int)
    ensures
        ((x % 4) + (y % 4) + (z % 4)) % 4 == (x + y + z) % 4,
{
    lemma_add_mod_noop(x, y, 4);
    lemma_add_mod_noop(x + y, z, 4);
    lemma_add_mod_noop((x % 4) + (y % 4), z, 4);
    lemma_add_mod_noop(x % 4, y % 4, 4);
    assert((x % 4) % 4 == x % 4);
    assert((y % 4) % 4 == y % 4);
}

proof fn lemma_half_mod(x: int)
    requires
        x >= 0,
    ensures
        (x % 4) / 2 == (x / 2) % 2,
{
    lemma_fundamental_div_mod(x, 4);
    let q = x / 4;
    let r = x % 4;
    assert(x / 2 == 2 * q + r / 2) by (nonlinear_arith)
        requires x == 4 * q + r, 0 <= r < 4;
    assert((2 * q + r / 2) % 2 == r / 2) by (nonlinear_arith)
        requires 0 <= r < 4;
}

/// Quarter-cycle phase of the subcarrier for scanline `line_num` of field `field_num`.
pub fn chroma_luma_line_offset(
    scanline_phase_shift: PhaseShift,
    offset: i32,
    field_num: usize,
    line_num: usize,
) -> (r: usize)
    ensures
        r < 4,
        r as int == line_offset_spec(scanline_phase_shift, offset as int, field_num as int, line_num as int),
{
    let off: usize = (offset & 3) as usize;
    proof {
        assert(0 <= offset & 3 < 4) by (bit_vector);
        assert((offset & 3) as int == (offset as int) % 4) by (bit_vector);
    }
    match scanline_phase_shift {
        PhaseShift::Degrees90 | PhaseShift::Degrees270 => {
            let a: usize = field_num % 4;
            let b: usize = (line_num / 2) % 4;
            proof {
                lemma_sum_mod4(field_num as int, offset as int, line_num as int / 2);
            }
            (a + off + b) % 4
        },
        PhaseShift::Degrees180 => {
            let p: usize = ((field_num % 4) + (line_num % 4)) % 4;
            proof {
                lemma_sum_mod4(field_num as int, line_num as int, 0);
                lemma_half_mod(field_num + line_num);
                lemma_add_mod_noop(2 * ((p / 2) as int), offset as int, 4);
                assert((2 * ((p / 2) as int)) % 4 == 2 * ((p / 2) as int));
            }
            ((p / 2) * 2 + off) % 4
        },
        PhaseShift::Degrees0 => 0,
    }
}

/// Quarter-cycle phase of the subcarrier at sample `index` of a line that starts at phase `xi`.
pub fn pixel_phase(index: usize, xi: usize) -> (r: usize)
    ensures
        r < 4,
        r as int == (index as int + xi as int) % 4,
{
    proof {
        lemma_sum_mod4(index as int, xi as int, 0);
    }
    ((index % 4) + (xi % 4)) % 4
}

/// Weight of the in-phase chroma component at a quarter-cycle phase: the cosine of the
/// subcarrier.
pub open spec fn i_weight_spec(phase: int) -> int {
    if phase == 0 {
        1
    } else if phase == 2 {
        -1
    } else {
        0
    }
}

/// Weight of the quadrature chroma component at a quarter-cycle phase: the sine of the
/// subcarrier.
pub open spec fn q_weight_spec(phase: int) -> int {
    if phase == 1 {
        1
    } else if phase == 3 {
        -1
    } else {
        0
    }
}

/// The weights of the I and Q components that the subcarrier carries at `phase`.
pub fn subcarrier_weights(phase: usize) -> (r: (i8, i8))
    requires
        phase < 4,
    ensures
        r.0 as int == i_weight_spec(phase as int),
        r.1 as int == q_weight_spec(phase as int),
{
    if phase == 0 {
        (1, 0)
    } else if phase == 1 {
        (0, 1)
    } else if phase == 2 {
        (-1, 0)
    } else {
        (0, -1)
    }
}

/// The sample that enters the four-sample luma blur at position `index` of a line of
/// `width` samples: two ahead, held at the last sample near the end.
pub fn blur_lookahead(index: usize, width: usize) -> (r: usize)
    requires
        index < width,
    ensures
        r == if index + 2 < width { index + 2 } else { width - 1 },
        r < width,
{
    if width - index > 2 {
        index + 2
    } else {
        width - 1
    }
}

} // verus!
