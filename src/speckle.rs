use vstd::prelude::*;

verus! {

/// Number of samples between the zeros of a speckle's transient.
pub const SPECKLE_TRANSIENT_FREQUENCY: usize = 8;

/// Number of half-periods that a speckle's transient lasts.
pub const TRANSIENT_LEN: usize = 2;

/// One speckle on a row: the samples `start..end` that it perturbs, and the position from
/// which the distance to the next speckle is counted.
#[derive(Clone, Copy, Debug, PartialEq, Eq, Structural)]
pub struct SpeckleSpan {
    pub start: usize,
    pub end: usize,
    pub next: usize,
}

/// The speckle that lies `gap` samples after `position` on a row of `len` samples, or none
/// when that lies past the end of the row.
pub open spec fn speckle_span_spec(position: int, gap: int, len: int) -> Option<SpeckleSpan> {
    let start = position + gap;
    if start >= len {
        None
    } else {
        let end = if start + 16 < len { start + 16 } else { len };
        Some(SpeckleSpan { start: start as usize, end: end as usize, next: (start + 1) as usize })
    }
}

/// Places the next speckle of a row of `len` samples, `gap` samples after `position`, where
/// `gap` is drawn from a geometric distribution. Each speckle moves the position on by at
/// least one sample, so a row of `len` samples holds at most `len` speckles.
pub fn speckle_span(position: usize, gap: u64, len: usize) -> (r: Option<SpeckleSpan>)
    ensures
        r == speckle_span_spec(position as int, gap as int, len as int),
        r matches Some(s) ==> position <= s.start < s.end <= len && s.end - s.start <= 16 && s.next == s.start + 1,
{
    if gap >= len as u64 || position >= len - gap as usize {
        None
    } else {
        let start: usize = position + gap as usize;
        let span: usize = TRANSIENT_LEN * SPECKLE_TRANSIENT_FREQUENCY;
        let end: usize = if len - start > span {
            start + span
        } else {
            len
        };
        Some(SpeckleSpan { start, end, next: start + 1 })
    }
}

/// When every gap is zero (an event probability of one), the speckles of a row start at
/// every position in turn: the speckle placed from position `p` starts at `p` and the next
/// is counted from `p + 1`.
pub proof fn lemma_zero_gaps_cover_every_position(position: int, len: int)
    requires
        0 <= position < len <= usize::MAX,
    ensures
        speckle_span_spec(position, 0, len) matches Some(s) && s.start == position && s.next == position + 1,
{
}

/// Past the end of the row no speckle is placed, whatever the gap.
pub proof fn lemma_no_speckle_past_end(position: int, gap: int, len: int)
    requires
        position >= len,
        gap >= 0,
    ensures
        speckle_span_spec(position, gap, len) is None,
{
}

} // verus!
