use tetris_core::grid::Grid;
use tetris_core::rotation::rotate_ccw;
use tetris_core::rotation::rotate_cw;
use tetris_core::rotation::transpose;

#[test]
fn test_transpose() {
    // Make matrix:
    // [ 1, 2, 3 ]
    // [ 4, 5, 6 ]
    // Transpose to:
    // [ 1, 4 ]
    // [ 2, 5 ]
    // [ 3, 6 ]
    let m1 = Grid::from_row_major(vec![1, 2, 3, 4, 5, 6], 2, 3).unwrap();
    let m2 = Grid::from_row_major(vec![1, 4, 2, 5, 3, 6], 3, 2).unwrap();
    let t1 = transpose(&m1);
    assert_eq!(t1.num_rows(), 3);
    assert_eq!(t1.num_cols(), 2);
    assert_eq!(t1.as_row_major(), m2.as_row_major());
    let t2 = transpose(&m2);
    assert_eq!(m1.as_row_major(), t2.as_row_major());
}

#[test]
fn test_rotate_cw() {
    // Make matrix:
    // [ 1, 2, 3 ]
    // [ 4, 5, 6 ]
    // Rotate to:
    // [ 4, 1 ]
    // [ 5, 2 ]
    // [ 6, 3 ]
    let m1 = Grid::from_row_major(vec![1, 2, 3, 4, 5, 6], 2, 3).unwrap();
    let m2 = Grid::from_row_major(vec![4, 1, 5, 2, 6, 3], 3, 2).unwrap();
    let r = rotate_cw(&m1);
    assert_eq!(r.num_rows(), 3);
    assert_eq!(r.num_cols(), 2);
    assert_eq!(r.as_row_major(), m2.as_row_major());
}

#[test]
fn test_rotate_ccw() {
    // Make matrix:
    // [ 4, 1 ]
    // [ 5, 2 ]
    // [ 6, 3 ]
    // Rotate to:
    // [ 1, 2, 3 ]
    // [ 4, 5, 6 ]
    let m1 = Grid::from_row_major(vec![4, 1, 5, 2, 6, 3], 3, 2).unwrap();
    let m2 = Grid::from_row_major(vec![1, 2, 3, 4, 5, 6], 2, 3).unwrap();
    let r = rotate_ccw(&m1);
    assert_eq!(r.num_rows(), 2);
    assert_eq!(r.num_cols(), 3);
    assert_eq!(r.as_row_major(), m2.as_row_major());
}

#[test]
fn test_rotation_group_law() {
    // Rotating clockwise four times returns the grid unchanged, and rotating
    // clockwise k times is undone by rotating counterclockwise k times.
    let g = Grid::from_row_major(vec![1, 2, 3, 4, 5, 6], 2, 3).unwrap();
    let mut four = g.clone();
    for _ in 0..4 {
        four = rotate_cw(&four);
    }
    assert_eq!(four.num_rows(), 2);
    assert_eq!(four.num_cols(), 3);
    assert_eq!(four.as_row_major(), g.as_row_major());

    let k = 3;
    let mut back = g.clone();
    for _ in 0..k {
        back = rotate_cw(&back);
    }
    for _ in 0..k {
        back = rotate_ccw(&back);
    }
    assert_eq!(back.num_rows(), 2);
    assert_eq!(back.num_cols(), 3);
    assert_eq!(back.as_row_major(), g.as_row_major());
}
