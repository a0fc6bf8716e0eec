use tetris_core::board::Board;
use tetris_core::board::BoardError;
use tetris_core::coordinate::Coordinate;
use tetris_core::grid::Grid;

#[test]
fn test_set_mask() {
    // Create board with coordinate x:
    //   0 1 2 3
    // 0 f f f f
    // 1 f f X f
    // 2 f f f f
    // Create mask:
    //   0 1
    // 0 t t
    // 1 t f
    // Expect target:
    //   0 1 2 3
    // 0 f f f f
    // 1 f f t t
    // 2 f f t f
    let mut board = Board::new(Coordinate::from_array([3, 4]), false);
    let mask = Grid::from_row_major(
        vec![
            true, true, //
            true, false, //
        ],
        2,
        2,
    )
    .unwrap();
    board.set_mask(&mask, Coordinate::from_array([1, 2])).unwrap();
    let target = Grid::from_row_major(
        vec![
            false, false, false, false, //
            false, false, true, true, //
            false, false, true, false, //
        ],
        3,
        4,
    )
    .unwrap();
    assert_eq!(board.get_array().as_row_major(), target.as_row_major());
}

#[test]
fn test_set_mask_out_of_range() {
    // Create board:
    //   0 1 2 3 4
    // 0 f f f f f
    // 1 f f f f f
    // 2 X
    // Create mask:
    //   0 1 2
    // 0 f t t
    // 1 t t f
    // Writing the mask at (3, 0) is rejected and the board stays unchanged.
    let mut board = Board::new(Coordinate::from_array([2, 5]), false);
    let mask = Grid::from_row_major(
        vec![
            false, true, true, //
            true, true, false, //
        ],
        2,
        3,
    )
    .unwrap();
    let r = board.set_mask(&mask, Coordinate::from_array([3, 0]));
    match r {
        Err(BoardError::OutOfBounds { row, col }) => {
            assert_eq!(row, 3);
            assert_eq!(col, 0);
        },
        _ => panic!("expected an out-of-range failure"),
    }
    assert_eq!(board.get_array().as_row_major(), vec![false; 10]);
}

#[test]
fn test_set_value() {
    // Create board with coordinate X:
    //   0 1 2
    // 0 f X f
    // 1 f f f
    // 2 f f f
    // 3 f f f
    // Create mask:
    //   0
    // 0 t
    // 1 t
    // 2 t
    // Expect target:
    //   0 1 2
    // 0 f t f
    // 1 f t f
    // 2 f t f
    // 3 f f f
    let mut board = Board::new(Coordinate::from_array([4, 3]), false);
    board
        .set_value(true, Coordinate::from_array([0, 1]), Coordinate::from_array([3, 1]))
        .unwrap();
    let target = Grid::from_row_major(
        vec![
            false, true, false, //
            false, true, false, //
            false, true, false, //
            false, false, false, //
        ],
        4,
        3,
    )
    .unwrap();
    assert_eq!(board.get_array().as_row_major(), target.as_row_major());
}

#[test]
fn test_set_value_out_of_range() {
    // A 1x3 fill at (0, 0) does not fit a 5x2 board; the write is rejected
    // naming the first invalid cell (0, 2), and the board stays unchanged.
    let mut board = Board::new(Coordinate::from_array([5, 2]), false);
    let r = board.set_value(true, Coordinate::from_array([0, 0]), Coordinate::from_array([1, 3]));
    match r {
        Err(BoardError::OutOfBounds { row, col }) => {
            assert_eq!(row, 0);
            assert_eq!(col, 2);
        },
        _ => panic!("expected an out-of-range failure"),
    }
    assert_eq!(board.get_array().as_row_major(), vec![false; 10]);
}

#[test]
fn test_mask_set_cells() {
    // Writing a 2x2 all-true mask at (1, 2) into a 3x4 all-false board yields
    // true exactly at (1,2), (1,3), (2,2), (2,3) and false elsewhere.
    let mut board = Board::new(Coordinate::from_array([3, 4]), false);
    let mask = Grid::from_row_major(vec![true, true, true, true], 2, 2).unwrap();
    board.set_mask(&mask, Coordinate::from_array([1, 2])).unwrap();
    let cells = board.get_array().as_row_major();
    for row in 0..3 {
        for col in 0..4 {
            let expected = (row == 1 || row == 2) && (col == 2 || col == 3);
            assert_eq!(cells[row * 4 + col], expected);
        }
    }
}

#[test]
fn test_combine_and() {
    // ANDing an all-true board with an alternating grid of the same shape
    // yields the alternating pattern.
    let board = Board::new(Coordinate::from_array([2, 2]), true);
    let other = Grid::from_row_major(vec![true, false, false, true], 2, 2).unwrap();
    let combined = board.and(&other).unwrap();
    assert_eq!(combined.get_array().as_row_major(), vec![true, false, false, true]);
}

#[test]
fn test_combine_dimension_mismatch() {
    // Combining boards of mismatched shape fails with DimensionMismatch.
    let board = Board::new(Coordinate::from_array([2, 2]), true);
    let other = Grid::from_row_major(vec![true, false, true, false, true, false], 2, 3).unwrap();
    match board.and(&other) {
        Err(e) => assert_eq!(e, BoardError::DimensionMismatch),
        Ok(_) => panic!("expected a dimension mismatch"),
    }
}

#[test]
fn test_combine_or_xor() {
    let board = Board::from_array(
        &Grid::from_row_major(vec![true, false, true, false], 2, 2).unwrap(),
        false,
    );
    let other = Grid::from_row_major(vec![true, true, false, false], 2, 2).unwrap();
    let ored = board.or(&other).unwrap();
    assert_eq!(ored.get_array().as_row_major(), vec![true, true, true, false]);
    let xored = board.xor(&other).unwrap();
    assert_eq!(xored.get_array().as_row_major(), vec![false, true, true, false]);
}

#[test]
fn test_set_mask_and_or_xor() {
    // Each masked write combines the mask with the covered cells and leaves
    // the rest of the board alone.
    let base = Grid::from_row_major(vec![true, false, true, false, true, false], 2, 3).unwrap();
    let mask = Grid::from_row_major(vec![true, true, false, true], 2, 2).unwrap();

    let mut anded = Board::from_array(&base, false);
    anded.set_mask_and(&mask, Coordinate::from_array([0, 1])).unwrap();
    assert_eq!(anded.get_array().as_row_major(), vec![true, false, true, false, false, false]);

    let mut ored = Board::from_array(&base, false);
    ored.set_mask_or(&mask, Coordinate::from_array([0, 1])).unwrap();
    assert_eq!(ored.get_array().as_row_major(), vec![true, true, true, false, true, true]);

    let mut xored = Board::from_array(&base, false);
    xored.set_mask_xor(&mask, Coordinate::from_array([0, 1])).unwrap();
    assert_eq!(xored.get_array().as_row_major(), vec![true, true, false, false, true, true]);
}

#[test]
fn test_slice() {
    // Slicing is inclusive at the low corner and exclusive at the high one,
    // and the corners may come in either order.
    let grid = Grid::from_row_major(
        vec![
            true, false, false, //
            false, true, false, //
            false, false, true, //
        ],
        3,
        3,
    )
    .unwrap();
    let board = Board::from_array(&grid, false);
    let s = board
        .slice(Coordinate::from_array([1, 1]), Coordinate::from_array([3, 3]))
        .unwrap();
    assert_eq!(s.get_shape(), Coordinate { row: 2, col: 2 });
    assert_eq!(s.get_array().as_row_major(), vec![true, false, false, true]);
    let swapped = board
        .slice(Coordinate::from_array([3, 3]), Coordinate::from_array([1, 1]))
        .unwrap();
    assert_eq!(swapped.get_array().as_row_major(), vec![true, false, false, true]);
    // A corner beyond the board's shape yields nothing.
    assert!(board.slice(Coordinate::from_array([1, 1]), Coordinate::from_array([4, 3])).is_none());
}

#[test]
fn test_board_accessors() {
    let board = Board::new(Coordinate::from_array([4, 3]), false);
    assert_eq!(board.get_shape(), Coordinate { row: 4, col: 3 });
    assert_eq!(board.get_coords(), Coordinate { row: 3, col: 2 });
    assert!(!board.get_negative());
}
