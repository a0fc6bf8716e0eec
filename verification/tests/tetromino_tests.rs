use tetris_core::grid::Grid;
use tetris_core::rotation::rotate_ccw;
use tetris_core::rotation::rotate_cw;
use tetris_core::tetrominoes::Tetromino;
use tetris_core::tetrominoes::TetrominoShape;

#[test]
fn test_tetromino_init() {
    // Create S tetromino, check if the mask matches.
    let t_s = Tetromino::from_shape(TetrominoShape::S);
    let m_s = Grid::from_row_major(
        vec![
            false, true, true, // . x x
            true, true, false, // x x .
        ],
        2,
        3,
    )
    .unwrap();
    assert_eq!(t_s.get_mask().as_row_major(), m_s.as_row_major());
}

#[test]
fn test_tetromino_rotate_cw() {
    // Create J tetromino, rotate 10 times clockwise, check if all match.
    let mut t_j = Tetromino::from_shape(TetrominoShape::J);
    let mut m_j = Grid::from_row_major(
        vec![
            true, false, false, // o . .
            true, true, true, //   o o o
        ],
        2,
        3,
    )
    .unwrap();
    for _ in 0..10 {
        t_j.rotate_cw();
        m_j = rotate_cw(&m_j);
        assert_eq!(t_j.get_mask().as_row_major(), m_j.as_row_major());
        assert_eq!(t_j.get_mask().num_rows(), m_j.num_rows());
        assert_eq!(t_j.get_mask().num_cols(), m_j.num_cols());
    }
}

#[test]
fn test_tetromino_rotate_ccw() {
    // Create Z tetromino, rotate 10 times counterclockwise, check if all match.
    let mut t_z = Tetromino::from_shape(TetrominoShape::Z);
    let mut m_z = Grid::from_row_major(
        vec![
            true, true, false, // x x .
            false, true, true, // . x x
        ],
        2,
        3,
    )
    .unwrap();
    for _ in 0..10 {
        t_z.rotate_ccw();
        m_z = rotate_ccw(&m_z);
        assert_eq!(t_z.get_mask().as_row_major(), m_z.as_row_major());
        assert_eq!(t_z.get_mask().num_rows(), m_z.num_rows());
        assert_eq!(t_z.get_mask().num_cols(), m_z.num_cols());
    }
}

#[test]
fn test_shape_fidelity() {
    // Every canonical shape has exactly 4 occupied cells in its base mask,
    // and each of its rotation states is the clockwise rotation of the one
    // before it.
    let shapes = [
        TetrominoShape::I,
        TetrominoShape::J,
        TetrominoShape::L,
        TetrominoShape::O,
        TetrominoShape::S,
        TetrominoShape::T,
        TetrominoShape::Z,
    ];
    for shape in shapes {
        let mut t = Tetromino::from_shape(shape);
        let occupied = t.get_mask().as_row_major().iter().filter(|&&c| c).count();
        assert_eq!(occupied, 4);
        for _ in 0..4 {
            let prev = t.get_mask().clone();
            t.rotate_cw();
            let expected = rotate_cw(&prev);
            assert_eq!(t.get_mask().num_rows(), expected.num_rows());
            assert_eq!(t.get_mask().num_cols(), expected.num_cols());
            assert_eq!(t.get_mask().as_row_major(), expected.as_row_major());
        }
    }
}

#[test]
fn test_tetromino_colors() {
    let t_i = Tetromino::from_shape(TetrominoShape::I);
    assert_eq!(t_i.color.to_array(), [0, 255, 255]);
    let t_z = Tetromino::from_shape(TetrominoShape::Z);
    assert_eq!(t_z.color.to_array(), [255, 0, 0]);
}

#[test]
fn test_tetromino_shape_extent() {
    // The J piece starts 2 rows by 3 columns; one clockwise rotation swaps
    // the extent.
    let mut t = Tetromino::from_shape(TetrominoShape::J);
    let shape = t.get_shape();
    assert_eq!(shape.row, 2);
    assert_eq!(shape.col, 3);
    let corner = t.get_coords();
    assert_eq!(corner.row, 1);
    assert_eq!(corner.col, 2);
    t.rotate_cw();
    let rotated = t.get_shape();
    assert_eq!(rotated.row, 3);
    assert_eq!(rotated.col, 2);
}

#[test]
fn test_tetromino_new() {
    // A tetromino built from an explicit base mask exposes that mask first.
    let base = Grid::from_row_major(vec![true, false, true, true], 2, 2).unwrap();
    let color = tetris_core::color::Rgb::from_array([1, 2, 3]);
    let mut t = Tetromino::new(TetrominoShape::O, color, base.clone());
    assert_eq!(t.get_mask().as_row_major(), base.as_row_major());
    // Four clockwise rotations return to the base mask.
    for _ in 0..4 {
        t.rotate_cw();
    }
    assert_eq!(t.get_mask().as_row_major(), base.as_row_major());
}
