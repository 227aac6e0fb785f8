use vstd::prelude::*;

verus! {

/// The seven tetromino kinds.
#[derive(Clone, Copy, Debug, PartialEq, Eq, Structural)]
pub enum TetrominoKind {
    I,
    L,
    J,
    O,
    S,
    T,
    Z,
}

/// The occupied cells of a shape, as `(row, column)` pairs inside its 4x4 frame,
/// listed in row-major order. Rotation indices are 0 to 3.
pub open spec fn shape_cells(kind: TetrominoKind, rotation: int) -> Seq<(int, int)> {
    match kind {
        TetrominoKind::I => {
            if rotation == 0 {
                seq![(1, 0), (1, 1), (1, 2), (1, 3)]
            } else if rotation == 1 {
                seq![(0, 1), (1, 1), (2, 1), (3, 1)]
            } else if rotation == 2 {
                seq![(2, 0), (2, 1), (2, 2), (2, 3)]
            } else {
                seq![(0, 2), (1, 2), (2, 2), (3, 2)]
            }
        },
        TetrominoKind::L => {
            if rotation == 0 {
                seq![(1, 1), (1, 2), (1, 3), (2, 1)]
            } else if rotation == 1 {
                seq![(0, 2), (1, 2), (2, 2), (2, 3)]
            } else if rotation == 2 {
                seq![(1, 3), (2, 1), (2, 2), (2, 3)]
            } else {
                seq![(0, 1), (0, 2), (1, 2), (2, 2)]
            }
        },
        TetrominoKind::J => {
            if rotation == 0 {
                seq![(1, 1), (1, 2), (1, 3), (2, 3)]
            } else if rotation == 1 {
                seq![(0, 2), (0, 3), (1, 2), (2, 2)]
            } else if rotation == 2 {
                seq![(0, 1), (1, 1), (1, 2), (1, 3)]
            } else {
                seq![(0, 2), (1, 2), (2, 1), (2, 2)]
            }
        },
        TetrominoKind::O => {
            if rotation == 0 {
                seq![(1, 1), (1, 2), (2, 1), (2, 2)]
            } else if rotation == 1 {
                seq![(1, 1), (1, 2), (2, 1), (2, 2)]
            } else if rotation == 2 {
                seq![(1, 1), (1, 2), (2, 1), (2, 2)]
            } else {
                seq![(1, 1), (1, 2), (2, 1), (2, 2)]
            }
        },
        TetrominoKind::S => {
            if rotation == 0 {
                seq![(1, 2), (1, 3), (2, 1), (2, 2)]
            } else if rotation == 1 {
                seq![(0, 2), (1, 2), (1, 3), (2, 3)]
            } else if rotation == 2 {
                seq![(1, 2), (1, 3), (2, 1), (2, 2)]
            } else {
                seq![(0, 1), (1, 1), (1, 2), (2, 2)]
            }
        },
        TetrominoKind::T => {
            if rotation == 0 {
                seq![(1, 1), (1, 2), (1, 3), (2, 2)]
            } else if rotation == 1 {
                seq![(0, 2), (1, 2), (1, 3), (2, 2)]
            } else if rotation == 2 {
                seq![(0, 2), (1, 1), (1, 2), (1, 3)]
            } else {
                seq![(0, 2), (1, 1), (1, 2), (2, 2)]
            }
        },
        TetrominoKind::Z => {
            if rotation == 0 {
                seq![(1, 1), (1, 2), (2, 2), (2, 3)]
            } else if rotation == 1 {
                seq![(0, 3), (1, 2), (1, 3), (2, 2)]
            } else if rotation == 2 {
                seq![(1, 1), (1, 2), (2, 2), (2, 3)]
            } else {
                seq![(0, 1), (1, 1), (1, 2), (2, 2)]
            }
        },
    }
}

/// Whether cell `(row, col)` of the 4x4 frame is occupied by the shape.
pub open spec fn occupies(kind: TetrominoKind, rotation: int, row: int, col: int) -> bool {
    let c = shape_cells(kind, rotation);
    c[0] == (row, col) || c[1] == (row, col) || c[2] == (row, col) || c[3] == (row, col)
}

/// The set of occupied cells of the 4x4 frame.
pub open spec fn occupied_cells(kind: TetrominoKind, rotation: int) -> Set<(int, int)> {
    Set::new(|p: (int, int)| 0 <= p.0 < 4 && 0 <= p.1 < 4 && occupies(kind, rotation, p.0, p.1))
}

/// Every rotation of every kind occupies exactly four cells of its frame.
pub proof fn lemma_shape_has_four_cells(kind: TetrominoKind, rotation: int)
    requires
        0 <= rotation < 4,
    ensures
        occupied_cells(kind, rotation).finite(),
        occupied_cells(kind, rotation).len() == 4,
{
    let c = shape_cells(kind, rotation);
    assert(c.len() == 4);
    assert(c[0] != c[1] && c[0] != c[2] && c[0] != c[3] && c[1] != c[2] && c[1] != c[3] && c[2] != c[3]);
    assert(forall|i: int| 0 <= i < 4 ==> 0 <= #[trigger] c[i].0 < 4 && 0 <= c[i].1 < 4);
    let s = Set::<(int, int)>::empty().insert(c[0]).insert(c[1]).insert(c[2]).insert(c[3]);
    assert(occupied_cells(kind, rotation) =~= s);
}

/// The occupied cells of a shape, in the order of `shape_cells`.
fn shape_offsets(kind: TetrominoKind, rotation: usize) -> (r: [(usize, usize); 4])
    requires
        rotation < 4,
    ensures
        forall|i: int| 0 <= i < 4 ==> (#[trigger] r[i]).0 as int == shape_cells(kind, rotation as int)[i].0
            && r[i].1 as int == shape_cells(kind, rotation as int)[i].1,
{
    match kind {
        TetrominoKind::I => {
            if rotation == 0 {
                [(1, 0), (1, 1), (1, 2), (1, 3)]
            } else if rotation == 1 {
                [(0, 1), (1, 1), (2, 1), (3, 1)]
            } else if rotation == 2 {
                [(2, 0), (2, 1), (2, 2), (2, 3)]
            } else {
                [(0, 2), (1, 2), (2, 2), (3, 2)]
            }
        },
        TetrominoKind::L => {
            if rotation == 0 {
                [(1, 1), (1, 2), (1, 3), (2, 1)]
            } else if rotation == 1 {
                [(0, 2), (1, 2), (2, 2), (2, 3)]
            } else if rotation == 2 {
                [(1, 3), (2, 1), (2, 2), (2, 3)]
            } else {
                [(0, 1), (0, 2), (1, 2), (2, 2)]
            }
        },
        TetrominoKind::J => {
            if rotation == 0 {
                [(1, 1), (1, 2), (1, 3), (2, 3)]
            } else if rotation == 1 {
                [(0, 2), (0, 3), (1, 2), (2, 2)]
            } else if rotation == 2 {
                [(0, 1), (1, 1), (1, 2), (1, 3)]
            } else {
                [(0, 2), (1, 2), (2, 1), (2, 2)]
            }
        },
        TetrominoKind::O => {
            if rotation == 0 {
                [(1, 1), (1, 2), (2, 1), (2, 2)]
            } else if rotation == 1 {
                [(1, 1), (1, 2), (2, 1), (2, 2)]
            } else if rotation == 2 {
                [(1, 1), (1, 2), (2, 1), (2, 2)]
            } else {
                [(1, 1), (1, 2), (2, 1), (2, 2)]
            }
        },
        TetrominoKind::S => {
            if rotation == 0 {
                [(1, 2), (1, 3), (2, 1), (2, 2)]
            } else if rotation == 1 {
                [(0, 2), (1, 2), (1, 3), (2, 3)]
            } else if rotation == 2 {
                [(1, 2), (1, 3), (2, 1), (2, 2)]
            } else {
                [(0, 1), (1, 1), (1, 2), (2, 2)]
            }
        },
        TetrominoKind::T => {
            if rotation == 0 {
                [(1, 1), (1, 2), (1, 3), (2, 2)]
            } else if rotation == 1 {
                [(0, 2), (1, 2), (1, 3), (2, 2)]
            } else if rotation == 2 {
                [(0, 2), (1, 1), (1, 2), (1, 3)]
            } else {
                [(0, 2), (1, 1), (1, 2), (2, 2)]
            }
        },
        TetrominoKind::Z => {
            if rotation == 0 {
                [(1, 1), (1, 2), (2, 2), (2, 3)]
            } else if rotation == 1 {
                [(0, 3), (1, 2), (1, 3), (2, 2)]
            } else if rotation == 2 {
                [(1, 1), (1, 2), (2, 2), (2, 3)]
            } else {
                [(0, 1), (1, 1), (1, 2), (2, 2)]
            }
        },
    }
}

/// Whether one of the four listed cells is `(row, col)`.
fn lists_cell(c: &[(usize, usize); 4], row: usize, col: usize) -> (r: bool)
    ensures
        r == (c[0] == (row, col) || c[1] == (row, col) || c[2] == (row, col) || c[3] == (row, col)),
{
    (c[0].0 == row && c[0].1 == col) || (c[1].0 == row && c[1].1 == col) || (c[2].0 == row
        && c[2].1 == col) || (c[3].0 == row && c[3].1 == col)
}

/// One row of a shape's occupancy matrix.
fn matrix_row(c: &[(usize, usize); 4], row: usize) -> (r: [bool; 4])
    ensures
        forall|col: int| 0 <= col < 4 ==> #[trigger] r[col] == (c[0] == (row, col as usize) || c[1] == (row, col as usize)
            || c[2] == (row, col as usize) || c[3] == (row, col as usize)),
{
    [lists_cell(c, row, 0), lists_cell(c, row, 1), lists_cell(c, row, 2), lists_cell(c, row, 3)]
}

/// The 4x4 occupancy matrix of a kind at a rotation, indexed `[row][col]`.
pub fn shape_matrix(kind: TetrominoKind, rotation: usize) -> (m: [[bool; 4]; 4])
    requires
        rotation < 4,
    ensures
        forall|row: int, col: int|
            0 <= row < 4 && 0 <= col < 4 ==> #[trigger] m[row][col] == occupies(kind, rotation as int, row, col),
{
    let c = shape_offsets(kind, rotation);
    let m = [matrix_row(&c, 0), matrix_row(&c, 1), matrix_row(&c, 2), matrix_row(&c, 3)];
    m
}

} // verus!
