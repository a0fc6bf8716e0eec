use tetris_core::coordinate::Coordinate;

#[test]
fn test_from_row_major() {
    // Create array:
    //  0  1  2  3  4
    //  5  6  7  8  9
    // 10 11 12 13 14
    // Get index 6. Compare the element at the created Coordinate with the
    // element at the row-major index.
    let data: Vec<i32> = (0..15).collect();
    let index = 6;
    let coord = Coordinate::from_row_major(index, Coordinate::from_array([3, 5])).unwrap();
    assert_eq!(data[coord.row * 5 + coord.col], data[index]);
}

#[test]
fn test_from_column_major() {
    // Create array:
    // 0 5 10
    // 1 6 11
    // 2 7 12
    // 3 8 13
    // 4 9 14
    // Get index 6. Compare the element at the created Coordinate with the
    // element at the column-major index.
    let data: Vec<i32> = (0..15).collect();
    let index = 6;
    let coord = Coordinate::from_column_major(index, Coordinate::from_array([5, 3])).unwrap();
    assert_eq!(data[coord.col * 5 + coord.row], data[index]);
}

#[test]
fn test_from_row_major_formula() {
    // The coordinate of row-major index 6 in a 3x5 array is (1, 1).
    let coord = Coordinate::from_row_major(6, Coordinate::from_array([3, 5])).unwrap();
    assert_eq!(coord, Coordinate { row: 1, col: 1 });
    // Indices up to and including the element count are accepted...
    let edge = Coordinate::from_row_major(15, Coordinate::from_array([3, 5])).unwrap();
    assert_eq!(edge, Coordinate { row: 3, col: 0 });
    // ...and larger indices are not.
    assert!(Coordinate::from_row_major(16, Coordinate::from_array([3, 5])).is_none());
}

#[test]
fn test_from_column_major_formula() {
    // The coordinate of column-major index 7 in a 5x3 array is (2, 1).
    let coord = Coordinate::from_column_major(7, Coordinate::from_array([5, 3])).unwrap();
    assert_eq!(coord, Coordinate { row: 2, col: 1 });
    assert!(Coordinate::from_column_major(16, Coordinate::from_array([5, 3])).is_none());
}

#[test]
fn test_inner_product() {
    assert_eq!(Coordinate::from_array([3, 5]).inner_product(), 15);
    assert_eq!(Coordinate::from_array([0, 7]).inner_product(), 0);
}

#[test]
fn test_is_within_bounds() {
    let lower = Coordinate::from_array([1, 1]);
    let upper = Coordinate::from_array([4, 6]);
    assert!(Coordinate::from_array([1, 1]).is_within_bounds(lower, upper));
    assert!(Coordinate::from_array([4, 6]).is_within_bounds(lower, upper));
    assert!(Coordinate::from_array([2, 3]).is_within_bounds(lower, upper));
    assert!(!Coordinate::from_array([0, 3]).is_within_bounds(lower, upper));
    assert!(!Coordinate::from_array([2, 7]).is_within_bounds(lower, upper));
}

#[test]
fn test_plus_minus() {
    let a = Coordinate::from_array([2, 3]);
    let b = Coordinate::from_array([1, 2]);
    assert_eq!(a.plus(b), Coordinate { row: 3, col: 5 });
    assert_eq!(a.minus(b), Coordinate { row: 1, col: 1 });
}
