use ntscrs::shift::{shift_row_whole, BoundaryHandling};

#[test]
fn zero_shift_leaves_row_unchanged() {
    let mut row = vec![1.5f64, -2.0, 3.25, 4.0];
    shift_row_whole(&mut row, 0, BoundaryHandling::Extend);
    assert_eq!(row, vec![1.5, -2.0, 3.25, 4.0]);
    shift_row_whole(&mut row, 0, BoundaryHandling::Constant(9.0));
    assert_eq!(row, vec![1.5, -2.0, 3.25, 4.0]);
}

#[test]
fn positive_shift_with_constant_fill() {
    let mut row = vec![1, 2, 3, 4, 5];
    shift_row_whole(&mut row, 2, BoundaryHandling::Constant(0));
    assert_eq!(row, vec![0, 0, 1, 2, 3]);
}

#[test]
fn negative_shift_with_constant_fill() {
    let mut row = vec![1, 2, 3, 4, 5];
    shift_row_whole(&mut row, -2, BoundaryHandling::Constant(7));
    assert_eq!(row, vec![3, 4, 5, 7, 7]);
}

#[test]
fn positive_shift_extends_first_sample() {
    let mut row = vec![1, 2, 3, 4, 5];
    shift_row_whole(&mut row, 1, BoundaryHandling::Extend);
    assert_eq!(row, vec![1, 1, 2, 3, 4]);
}

#[test]
fn negative_shift_extends_last_sample() {
    let mut row = vec![1, 2, 3, 4, 5];
    shift_row_whole(&mut row, -3, BoundaryHandling::Extend);
    assert_eq!(row, vec![4, 5, 5, 5, 5]);
}

#[test]
fn shift_past_row_length_fills_everything() {
    let mut row = vec![1, 2, 3];
    shift_row_whole(&mut row, 10, BoundaryHandling::Constant(0));
    assert_eq!(row, vec![0, 0, 0]);
    let mut row = vec![1, 2, 3];
    shift_row_whole(&mut row, i64::MIN, BoundaryHandling::Extend);
    assert_eq!(row, vec![3, 3, 3]);
}

#[test]
fn empty_row_is_left_alone() {
    let mut row: Vec<f64> = Vec::new();
    shift_row_whole(&mut row, 3, BoundaryHandling::Extend);
    assert!(row.is_empty());
}
