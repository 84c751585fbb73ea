use ntscrs::crosstalk::{blur_lookahead, chroma_luma_line_offset, pixel_phase, subcarrier_weights, PhaseShift};
use ntscrs::speckle::{speckle_span, SpeckleSpan};

#[test]
fn line_offsets_90_degrees() {
    assert_eq!(chroma_luma_line_offset(PhaseShift::Degrees90, 0, 1, 0), 1);
    assert_eq!(chroma_luma_line_offset(PhaseShift::Degrees90, 0, 1, 2), 2);
    assert_eq!(chroma_luma_line_offset(PhaseShift::Degrees90, 0, 1, 6), 0);
    assert_eq!(chroma_luma_line_offset(PhaseShift::Degrees270, 2, 1, 4), 1);
    assert_eq!(chroma_luma_line_offset(PhaseShift::Degrees90, -1, 0, 0), 3);
}

#[test]
fn line_offsets_180_and_0_degrees() {
    assert_eq!(chroma_luma_line_offset(PhaseShift::Degrees180, 0, 1, 0), 0);
    assert_eq!(chroma_luma_line_offset(PhaseShift::Degrees180, 0, 1, 2), 2);
    assert_eq!(chroma_luma_line_offset(PhaseShift::Degrees180, 1, 1, 2), 3);
    assert_eq!(chroma_luma_line_offset(PhaseShift::Degrees180, -3, 0, 0), 1);
    assert_eq!(chroma_luma_line_offset(PhaseShift::Degrees0, 3, 5, 9), 0);
}

#[test]
fn pixel_phases_and_weights() {
    assert_eq!(pixel_phase(0, 3), 3);
    assert_eq!(pixel_phase(5, 2), 3);
    assert_eq!(pixel_phase(usize::MAX, 1), 0);
    assert_eq!(subcarrier_weights(0), (1, 0));
    assert_eq!(subcarrier_weights(1), (0, 1));
    assert_eq!(subcarrier_weights(2), (-1, 0));
    assert_eq!(subcarrier_weights(3), (0, -1));
}

#[test]
fn blur_lookahead_holds_last_sample() {
    assert_eq!(blur_lookahead(0, 10), 2);
    assert_eq!(blur_lookahead(8, 10), 9);
    assert_eq!(blur_lookahead(9, 10), 9);
    assert_eq!(blur_lookahead(0, 1), 0);
}

#[test]
fn speckle_spans() {
    assert_eq!(speckle_span(0, 0, 100), Some(SpeckleSpan { start: 0, end: 16, next: 1 }));
    assert_eq!(speckle_span(10, 80, 100), Some(SpeckleSpan { start: 90, end: 100, next: 91 }));
    assert_eq!(speckle_span(10, 90, 100), None);
    assert_eq!(speckle_span(0, u64::MAX, 100), None);
    assert_eq!(speckle_span(0, 0, 0), None);
}

#[test]
fn every_position_gets_a_speckle_at_gap_zero() {
    let len = 20usize;
    let mut position = 0usize;
    let mut starts = Vec::new();
    while let Some(s) = speckle_span(position, 0, len) {
        starts.push(s.start);
        position = s.next;
    }
    assert_eq!(starts, (0..len).collect::<Vec<_>>());
}
