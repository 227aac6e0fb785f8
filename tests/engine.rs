use rusty_tetris::engine::{Cell, Direction, GameState, Tetromino, BOARD_HEIGHT, BOARD_WIDTH};
use rusty_tetris::shapes::{shape_matrix, TetrominoKind};

const KINDS: [TetrominoKind; 7] = [
    TetrominoKind::I,
    TetrominoKind::L,
    TetrominoKind::J,
    TetrominoKind::O,
    TetrominoKind::S,
    TetrominoKind::T,
    TetrominoKind::Z,
];

fn spawn_piece() -> Tetromino {
    Tetromino { kind: TetrominoKind::L, rotation: 0, x: 3, y: 0 }
}

fn occupied(board: &[[Cell; BOARD_WIDTH]; BOARD_HEIGHT]) -> Vec<(usize, usize)> {
    let mut cells = Vec::new();
    for (r, row) in board.iter().enumerate() {
        for (c, cell) in row.iter().enumerate() {
            if *cell == Cell::Occupied {
                cells.push((r, c));
            }
        }
    }
    cells
}

fn empty_game_with(piece: Tetromino) -> GameState {
    let mut g = GameState::new();
    g.active_piece = Some(piece);
    g
}

#[test]
fn every_shape_has_four_cells() {
    for kind in KINDS {
        for rotation in 0..4 {
            let m = shape_matrix(kind, rotation);
            let n = m.iter().flatten().filter(|b| **b).count();
            assert_eq!(n, 4, "{:?} rotation {}", kind, rotation);
        }
    }
}

#[test]
fn shape_matrix_l_rotation_zero() {
    let m = shape_matrix(TetrominoKind::L, 0);
    assert_eq!(
        m,
        [
            [false, false, false, false],
            [false, true, true, true],
            [false, true, false, false],
            [false, false, false, false],
        ]
    );
}

#[test]
fn shape_matrix_i_rotation_one() {
    let m = shape_matrix(TetrominoKind::I, 1);
    for row in 0..4 {
        assert_eq!(m[row], [false, true, false, false]);
    }
}

#[test]
fn fresh_engine_renders_only_the_spawned_piece() {
    let g = GameState::new();
    assert_eq!(g.active_piece, Some(spawn_piece()));
    assert!(occupied(&g.board).is_empty());
    let grid = g.render_grid();
    assert_eq!(occupied(&grid), vec![(1, 4), (1, 5), (1, 6), (2, 4)]);
    // rendering leaves the locked grid untouched
    assert!(occupied(&g.board).is_empty());
}

#[test]
fn tick_below_floor_locks_and_spawns() {
    let piece = Tetromino { kind: TetrominoKind::L, rotation: 0, x: 3, y: 18 };
    let mut g = empty_game_with(piece);
    g.update();
    // the cell at board row 20 lies outside the grid and is dropped
    assert_eq!(occupied(&g.board), vec![(19, 4), (19, 5), (19, 6)]);
    assert_eq!(g.active_piece, Some(spawn_piece()));
}

#[test]
fn four_rotations_return_to_start() {
    let start = Tetromino { kind: TetrominoKind::T, rotation: 0, x: 3, y: 5 };
    let mut g = empty_game_with(start);
    for step in 1..=4usize {
        g.apply_intent(Direction::RotateCW);
        let p = g.active_piece.unwrap();
        assert_eq!(p.rotation, step % 4);
        assert_eq!((p.x, p.y), (3, 5));
    }
    assert_eq!(g.active_piece, Some(start));
}

#[test]
fn left_stops_at_wall() {
    let mut g = GameState::new();
    let mut xs = Vec::new();
    for _ in 0..8 {
        g.apply_intent(Direction::Left);
        xs.push(g.active_piece.unwrap().x);
    }
    // the L's leftmost cell is column 1 of its frame, so the frame reaches x = -1
    assert_eq!(xs, vec![2, 1, 0, -1, -1, -1, -1, -1]);
    assert!(occupied(&g.board).is_empty());
}

#[test]
fn right_stops_at_wall() {
    let mut g = GameState::new();
    for _ in 0..10 {
        g.apply_intent(Direction::Right);
    }
    // the L's rightmost cell is column 3 of its frame
    assert_eq!(g.active_piece.unwrap().x, 6);
}

#[test]
fn ticks_advance_one_row_until_blocked() {
    let mut g = GameState::new();
    for expected_y in 1..=17isize {
        g.update();
        let p = g.active_piece.unwrap();
        assert_eq!((p.kind, p.rotation, p.x, p.y), (TetrominoKind::L, 0, 3, expected_y));
        assert!(occupied(&g.board).is_empty());
    }
    // at y = 17 the lowest cell sits on row 19; the next tick locks
    g.update();
    assert_eq!(occupied(&g.board), vec![(18, 4), (18, 5), (18, 6), (19, 4)]);
    assert_eq!(g.active_piece, Some(spawn_piece()));
}

#[test]
fn second_piece_stacks_on_first() {
    let mut g = GameState::new();
    for _ in 0..18 {
        g.update();
    }
    assert_eq!(occupied(&g.board).len(), 4);
    // the second L comes to rest on top of the first one: lowest cell on row 17
    for _ in 0..15 {
        g.update();
    }
    assert_eq!(g.active_piece.unwrap().y, 15);
    g.update();
    assert_eq!(
        occupied(&g.board),
        vec![(16, 4), (16, 5), (16, 6), (17, 4), (18, 4), (18, 5), (18, 6), (19, 4)]
    );
    assert_eq!(g.active_piece, Some(spawn_piece()));
}

#[test]
fn rejected_intent_leaves_piece_unchanged() {
    let piece = Tetromino { kind: TetrominoKind::I, rotation: 1, x: -1, y: 4 };
    let mut g = empty_game_with(piece);
    g.apply_intent(Direction::Left);
    assert_eq!(g.active_piece, Some(piece));
    // rotating the vertical I at the wall would put a cell at column -1
    g.apply_intent(Direction::RotateCW);
    assert_eq!(g.active_piece, Some(piece));
    assert!(occupied(&g.board).is_empty());
}

#[test]
fn down_intent_moves_one_row() {
    let mut g = GameState::new();
    g.apply_intent(Direction::Down);
    assert_eq!(g.active_piece, Some(Tetromino { y: 1, ..spawn_piece() }));
}

#[test]
fn down_intent_at_floor_does_not_lock() {
    let piece = Tetromino { kind: TetrominoKind::O, rotation: 0, x: 0, y: 17 };
    let mut g = empty_game_with(piece);
    g.apply_intent(Direction::Down);
    assert_eq!(g.active_piece, Some(piece));
    assert!(occupied(&g.board).is_empty());
}

#[test]
fn rotate_piece_turns_clockwise() {
    let mut g = GameState::new();
    g.rotate_piece();
    assert_eq!(g.active_piece, Some(Tetromino { rotation: 1, ..spawn_piece() }));
}

#[test]
fn intents_without_active_piece_do_nothing() {
    let mut g = GameState::new();
    g.active_piece = None;
    g.apply_intent(Direction::Right);
    g.rotate_piece();
    g.update();
    assert_eq!(g.active_piece, None);
    assert!(occupied(&g.board).is_empty());
    assert!(occupied(&g.render_grid()).is_empty());
}

#[test]
fn valid_position_checks_walls_and_floor() {
    let g = GameState::new();
    let o = |x: isize, y: isize| Tetromino { kind: TetrominoKind::O, rotation: 0, x, y };
    // O occupies columns 1..=2 and rows 1..=2 of its frame
    assert!(g.is_valid_position(&o(-1, 0)));
    assert!(!g.is_valid_position(&o(-2, 0)));
    assert!(g.is_valid_position(&o(7, 0)));
    assert!(!g.is_valid_position(&o(8, 0)));
    assert!(g.is_valid_position(&o(0, 17)));
    assert!(!g.is_valid_position(&o(0, 18)));
    // no ceiling: a frame far above the grid is accepted
    assert!(g.is_valid_position(&o(0, -10)));
    assert!(!g.is_valid_position(&o(isize::MIN, 0)));
    assert!(!g.is_valid_position(&o(isize::MAX, 0)));
    assert!(!g.is_valid_position(&o(0, isize::MAX)));
}

#[test]
fn valid_position_checks_occupied_cells() {
    let mut g = GameState::new();
    g.board[10][5] = Cell::Occupied;
    let o = |x: isize, y: isize| Tetromino { kind: TetrominoKind::O, rotation: 0, x, y };
    assert!(!g.is_valid_position(&o(4, 9)));
    assert!(!g.is_valid_position(&o(3, 8)));
    assert!(g.is_valid_position(&o(2, 9)));
    assert!(g.is_valid_position(&o(4, 10)));
    // an occupied frame cell that the shape leaves empty does not matter
    assert!(g.is_valid_position(&o(5, 10)));
}

#[test]
fn lock_drops_cells_above_the_grid() {
    let piece = Tetromino { kind: TetrominoKind::I, rotation: 1, x: 0, y: -2 };
    let mut g = empty_game_with(piece);
    g.lock_piece(piece);
    assert_eq!(occupied(&g.board), vec![(0, 1), (1, 1)]);
    assert_eq!(g.active_piece, None);
    g.spawn_piece();
    assert_eq!(g.active_piece, Some(spawn_piece()));
}

#[test]
fn spawn_onto_filled_rows_relocks_at_once() {
    let mut g = GameState::new();
    for c in 0..BOARD_WIDTH {
        g.board[2][c] = Cell::Occupied;
    }
    // the spawned L already overlaps row 2; the tick cannot descend and locks it
    g.update();
    let cells = occupied(&g.board);
    assert!(cells.contains(&(1, 4)) && cells.contains(&(1, 5)) && cells.contains(&(1, 6)));
    assert_eq!(cells.len(), 13);
    assert_eq!(g.active_piece, Some(spawn_piece()));
}
