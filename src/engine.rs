use vstd::prelude::*;

use crate::shapes::{occupies, shape_matrix, TetrominoKind};

verus! {

pub const BOARD_WIDTH: usize = 10;

pub const BOARD_HEIGHT: usize = 20;

/// A board cell. Locked cells carry no record of the piece they came from.
#[derive(Clone, Copy, Debug, PartialEq, Eq, Structural)]
pub enum Cell {
    Empty,
    Occupied,
}

/// The grid, indexed `[row][column]`, row 0 at the top.
pub type Board = [[Cell; BOARD_WIDTH]; BOARD_HEIGHT];

/// A piece: its kind, its rotation index (0 to 3), and the board position of the
/// top-left corner of its 4x4 frame. The position may lie partly off the board.
#[derive(Clone, Copy, Debug, PartialEq, Eq, Structural)]
pub struct Tetromino {
    pub kind: TetrominoKind,
    pub rotation: usize,
    pub x: isize,
    pub y: isize,
}

/// A player's intent for the active piece.
#[derive(Clone, Copy, Debug, PartialEq, Eq, Structural)]
pub enum Direction {
    Left,
    Right,
    Down,
    RotateCW,
}

/// The board of locked cells and the falling piece, if any.
pub struct GameState {
    pub board: Board,
    pub active_piece: Option<Tetromino>,
}

/// Whether a shape cell that lands on column `bx`, row `by` is allowed there: between
/// the side walls, above the floor, and on an empty cell where it lies within the grid.
/// Rows above the top of the grid are not limited.
pub open spec fn cell_admits(board: Board, bx: int, by: int) -> bool {
    &&& 0 <= bx < BOARD_WIDTH
    &&& by < BOARD_HEIGHT
    &&& 0 <= by ==> board[by][bx] == Cell::Empty
}

/// Whether the shape of `kind` at `rotation`, with its frame at `(x, y)`, fits the board.
pub open spec fn fits(board: Board, kind: TetrominoKind, rotation: int, x: int, y: int) -> bool {
    forall|row: int, col: int|
        0 <= row < 4 && 0 <= col < 4 && #[trigger] occupies(kind, rotation, row, col)
            ==> cell_admits(board, x + col, y + row)
}

pub open spec fn valid_position(board: Board, p: Tetromino) -> bool {
    fits(board, p.kind, p.rotation as int, p.x as int, p.y as int)
}

/// Whether the piece occupies board cell `(by, bx)`.
pub open spec fn covers(p: Tetromino, by: int, bx: int) -> bool {
    &&& 0 <= by - p.y < 4
    &&& 0 <= bx - p.x < 4
    &&& occupies(p.kind, p.rotation as int, by - p.y, bx - p.x)
}

/// `after` is `before` with every grid cell that `p` occupies set to `Occupied`;
/// parts of `p` outside the grid are dropped.
pub open spec fn overlaid(before: Board, p: Tetromino, after: Board) -> bool {
    forall|by: int, bx: int|
        0 <= by < BOARD_HEIGHT && 0 <= bx < BOARD_WIDTH ==> #[trigger] after[by][bx] == if covers(
            p,
            by,
            bx,
        ) {
            Cell::Occupied
        } else {
            before[by][bx]
        }
}

/// The piece that every spawn places.
pub open spec fn spawned() -> Tetromino {
    Tetromino { kind: TetrominoKind::L, rotation: 0, x: 3, y: 0 }
}

/// The piece with one field changed by `dir`, or `None` where the new coordinate does
/// not fit in an `isize` (no such position lies on the board).
pub open spec fn candidate(p: Tetromino, dir: Direction) -> Option<Tetromino> {
    match dir {
        Direction::Left => if p.x > isize::MIN {
            Some(Tetromino { kind: p.kind, rotation: p.rotation, x: (p.x - 1) as isize, y: p.y })
        } else {
            None
        },
        Direction::Right => if p.x < isize::MAX {
            Some(Tetromino { kind: p.kind, rotation: p.rotation, x: (p.x + 1) as isize, y: p.y })
        } else {
            None
        },
        Direction::Down => if p.y < isize::MAX {
            Some(Tetromino { kind: p.kind, rotation: p.rotation, x: p.x, y: (p.y + 1) as isize })
        } else {
            None
        },
        Direction::RotateCW => Some(
            Tetromino { kind: p.kind, rotation: ((p.rotation + 1) % 4) as usize, x: p.x, y: p.y },
        ),
    }
}

/// Whether the move of `p` by `dir` is accepted on `board`.
pub open spec fn accepts(board: Board, p: Tetromino, dir: Direction) -> bool {
    match candidate(p, dir) {
        Some(c) => valid_position(board, c),
        None => false,
    }
}

/// The active piece after an intent: the candidate where it is accepted, else unchanged.
pub open spec fn after_intent(board: Board, p: Tetromino, dir: Direction) -> Tetromino {
    if accepts(board, p, dir) {
        candidate(p, dir).unwrap()
    } else {
        p
    }
}

/// Sets to `Occupied` every grid cell that `p` occupies.
fn overlay(board: &mut Board, p: &Tetromino)
    requires
        p.rotation < 4,
    ensures
        overlaid(*old(board), *p, *final(board)),
{
    let ghost before = *board;
    let m = shape_matrix(p.kind, p.rotation);
    let mut row: usize = 0;
    while row < 4
        invariant
            row <= 4,
            forall|r: int, c: int|
                0 <= r < 4 && 0 <= c < 4 ==> #[trigger] m[r][c] == occupies(
                    p.kind,
                    p.rotation as int,
                    r,
                    c,
                ),
            forall|by: int, bx: int|
                0 <= by < BOARD_HEIGHT && 0 <= bx < BOARD_WIDTH ==> #[trigger] board[by][bx] == if covers(
                    *p,
                    by,
                    bx,
                ) && by - p.y < row {
                    Cell::Occupied
                } else {
                    before[by][bx]
                },
        decreases 4 - row,
    {
        let mut col: usize = 0;
        while col < 4
            invariant
                row < 4,
                col <= 4,
                forall|r: int, c: int|
                    0 <= r < 4 && 0 <= c < 4 ==> #[trigger] m[r][c] == occupies(
                        p.kind,
                        p.rotation as int,
                        r,
                        c,
                    ),
                forall|by: int, bx: int|
                    0 <= by < BOARD_HEIGHT && 0 <= bx < BOARD_WIDTH ==> #[trigger] board[by][bx]
                        == if covers(*p, by, bx) && (by - p.y < row || (by - p.y == row && bx - p.x
                        < col)) {
                        Cell::Occupied
                    } else {
                        before[by][bx]
                    },
            decreases 4 - col,
        {
            if m[row][col] {
                let inside_columns = p.x >= -(col as isize) && p.x < (BOARD_WIDTH - col) as isize;
                let inside_rows = p.y >= -(row as isize) && p.y < (BOARD_HEIGHT - row) as isize;
                if inside_columns && inside_rows {
                    let bx = (p.x + col as isize) as usize;
                    let by = (p.y + row as isize) as usize;
                    board[by][bx] = Cell::Occupied;
                }
            }
            col += 1;
        }
        row += 1;
    }
}

impl GameState {
    /// The active piece, if any, has a rotation index below 4.
    pub open spec fn wf(&self) -> bool {
        match self.active_piece {
            Some(p) => p.rotation < 4,
            None => true,
        }
    }

    /// Whether `piece` fits the board: every occupied cell of its shape lies between the
    /// side walls and above the floor, and none lands on an occupied cell of the grid.
    pub fn is_valid_position(&self, piece: &Tetromino) -> (r: bool)
        requires
            piece.rotation < 4,
        ensures
            r == valid_position(self.board, *piece),
    {
        let m = shape_matrix(piece.kind, piece.rotation);
        let mut row: usize = 0;
        while row < 4
            invariant
                row <= 4,
                forall|r: int, c: int|
                    0 <= r < 4 && 0 <= c < 4 ==> #[trigger] m[r][c] == occupies(
                        piece.kind,
                        piece.rotation as int,
                        r,
                        c,
                    ),
                forall|r: int, c: int|
                    0 <= r < row && 0 <= c < 4 && #[trigger] occupies(
                        piece.kind,
                        piece.rotation as int,
                        r,
                        c,
                    ) ==> cell_admits(self.board, piece.x + c, piece.y + r),
            decreases 4 - row,
        {
            let mut col: usize = 0;
            while col < 4
                invariant
                    row < 4,
                    col <= 4,
                    forall|r: int, c: int|
                        0 <= r < 4 && 0 <= c < 4 ==> #[trigger] m[r][c] == occupies(
                            piece.kind,
                            piece.rotation as int,
                            r,
                            c,
                        ),
                    forall|r: int, c: int|
                        0 <= r < 4 && 0 <= c < 4 && (r < row || (r == row && c < col))
                            && #[trigger] occupies(piece.kind, piece.rotation as int, r, c)
                            ==> cell_admits(self.board, piece.x + c, piece.y + r),
                decreases 4 - col,
            {
                if m[row][col] {
                    if piece.x < -(col as isize) || piece.x >= (BOARD_WIDTH - col) as isize
                        || piece.y >= (BOARD_HEIGHT - row) as isize {
                        assert(occupies(piece.kind, piece.rotation as int, row as int, col as int));
                        return false;
                    }
                    if piece.y >= -(row as isize) {
                        let bx = (piece.x + col as isize) as usize;
                        let by = (piece.y + row as isize) as usize;
                        if self.board[by][bx] == Cell::Occupied {
                            assert(occupies(piece.kind, piece.rotation as int, row as int, col as int));
                            return false;
                        }
                    }
                }
                col += 1;
            }
            row += 1;
        }
        true
    }

    /// An all-empty board with a freshly spawned piece.
    pub fn new() -> (s: Self)
        ensures
            s.wf(),
            forall|by: int, bx: int|
                0 <= by < BOARD_HEIGHT && 0 <= bx < BOARD_WIDTH ==> #[trigger] s.board[by][bx]
                    == Cell::Empty,
            s.active_piece == Some(spawned()),
    {
        let mut game = GameState {
            board: [[Cell::Empty; BOARD_WIDTH]; BOARD_HEIGHT],
            active_piece: None,
        };
        game.spawn_piece();
        game
    }

    /// Places the starting piece, without checking that it fits.
    pub fn spawn_piece(&mut self)
        ensures
            final(self).board == old(self).board,
            final(self).active_piece == Some(spawned()),
    {
        self.active_piece = Some(Tetromino { kind: TetrominoKind::L, rotation: 0, x: 3, y: 0 });
    }

    /// Writes `piece` into the grid and leaves no active piece.
    pub fn lock_piece(&mut self, piece: Tetromino)
        requires
            piece.rotation < 4,
        ensures
            overlaid(old(self).board, piece, final(self).board),
            final(self).active_piece.is_none(),
    {
        overlay(&mut self.board, &piece);
        self.active_piece = None;
    }

    /// One gravity step: the active piece moves down one row where it fits; otherwise it
    /// is locked where it stands and the next piece is spawned.
    pub fn update(&mut self)
        requires
            old(self).wf(),
        ensures
            final(self).wf(),
            match old(self).active_piece {
                None => final(self).board == old(self).board && final(self).active_piece.is_none(),
                Some(p) => if accepts(old(self).board, p, Direction::Down) {
                    &&& final(self).board == old(self).board
                    &&& final(self).active_piece == candidate(p, Direction::Down)
                } else {
                    &&& overlaid(old(self).board, p, final(self).board)
                    &&& final(self).active_piece == Some(spawned())
                },
            },
    {
        if let Some(piece) = self.active_piece {
            let mut falls = false;
            let mut next_pos = piece;
            if piece.y < isize::MAX {
                next_pos.y = piece.y + 1;
                falls = self.is_valid_position(&next_pos);
            }
            if falls {
                self.active_piece = Some(next_pos);
            } else {
                self.lock_piece(piece);
                self.spawn_piece();
            }
        }
    }

    /// Moves or rotates the active piece as `dir` asks, where the result fits; a move
    /// that does not fit leaves the piece as it was.
    pub fn apply_intent(&mut self, dir: Direction)
        requires
            old(self).wf(),
        ensures
            final(self).wf(),
            final(self).board == old(self).board,
            match old(self).active_piece {
                None => final(self).active_piece.is_none(),
                Some(p) => final(self).active_piece == Some(after_intent(old(self).board, p, dir)),
            },
            forall|p: Tetromino|
                old(self).active_piece == Some(p) && !accepts(old(self).board, p, dir)
                    ==> final(self).active_piece == Some(p),
    {
        if let Some(piece) = self.active_piece {
            let mut next_pos = piece;
            let representable = match dir {
                Direction::Left => piece.x > isize::MIN,
                Direction::Right => piece.x < isize::MAX,
                Direction::Down => piece.y < isize::MAX,
                Direction::RotateCW => true,
            };
            if representable {
                match dir {
                    Direction::Left => next_pos.x = piece.x - 1,
                    Direction::Right => next_pos.x = piece.x + 1,
                    Direction::Down => next_pos.y = piece.y + 1,
                    Direction::RotateCW => next_pos.rotation = (piece.rotation + 1) % 4,
                }
                if self.is_valid_position(&next_pos) {
                    self.active_piece = Some(next_pos);
                }
            }
        }
    }

    /// Rotates the active piece clockwise where the rotated piece fits.
    pub fn rotate_piece(&mut self)
        requires
            old(self).wf(),
        ensures
            final(self).wf(),
            final(self).board == old(self).board,
            match old(self).active_piece {
                None => final(self).active_piece.is_none(),
                Some(p) => final(self).active_piece == Some(
                    after_intent(old(self).board, p, Direction::RotateCW),
                ),
            },
    {
        self.apply_intent(Direction::RotateCW);
    }

    /// A copy of the grid with the active piece drawn in; the grid itself is unchanged.
    pub fn render_grid(&self) -> (g: Board)
        requires
            self.wf(),
        ensures
            match self.active_piece {
                None => g == self.board,
                Some(p) => overlaid(self.board, p, g),
            },
    {
        let mut display_board = self.board;
        if let Some(piece) = self.active_piece {
            overlay(&mut display_board, &piece);
        }
        display_board
    }
}

/// A candidate with an occupied cell left of the left wall, right of the right wall,
/// or below the floor is not a valid position.
pub proof fn lemma_out_of_bounds_is_invalid(board: Board, c: Tetromino, row: int, col: int)
    requires
        0 <= row < 4,
        0 <= col < 4,
        occupies(c.kind, c.rotation as int, row, col),
        c.x + col < 0 || c.x + col >= BOARD_WIDTH || c.y + row >= BOARD_HEIGHT,
    ensures
        !valid_position(board, c),
{
}

/// A candidate with an occupied cell on an `Occupied` grid cell is not a valid position.
pub proof fn lemma_overlap_is_invalid(board: Board, c: Tetromino, row: int, col: int)
    requires
        0 <= row < 4,
        0 <= col < 4,
        occupies(c.kind, c.rotation as int, row, col),
        0 <= c.x + col < BOARD_WIDTH,
        0 <= c.y + row < BOARD_HEIGHT,
        board[c.y + row][c.x + col] == Cell::Occupied,
    ensures
        !valid_position(board, c),
{
}

/// A candidate whose occupied cells all lie between the side walls and above the floor,
/// none of them on an `Occupied` grid cell, is a valid position.
pub proof fn lemma_in_bounds_and_free_is_valid(board: Board, c: Tetromino)
    requires
        forall|row: int, col: int|
            0 <= row < 4 && 0 <= col < 4 && #[trigger] occupies(c.kind, c.rotation as int, row, col)
                ==> 0 <= c.x + col < BOARD_WIDTH && c.y + row < BOARD_HEIGHT,
        forall|row: int, col: int|
            0 <= row < 4 && 0 <= col < 4 && #[trigger] occupies(c.kind, c.rotation as int, row, col)
                && 0 <= c.y + row ==> board[c.y + row][c.x + col] != Cell::Occupied,
    ensures
        valid_position(board, c),
{
}

/// Four accepted clockwise rotations bring a piece back to where it started.
pub proof fn lemma_four_rotations_cycle(board: Board, p: Tetromino)
    requires
        p.rotation < 4,
        accepts(board, p, Direction::RotateCW),
        accepts(board, after_intent(board, p, Direction::RotateCW), Direction::RotateCW),
        accepts(
            board,
            after_intent(board, after_intent(board, p, Direction::RotateCW), Direction::RotateCW),
            Direction::RotateCW,
        ),
        accepts(
            board,
            after_intent(
                board,
                after_intent(board, after_intent(board, p, Direction::RotateCW), Direction::RotateCW),
                Direction::RotateCW,
            ),
            Direction::RotateCW,
        ),
    ensures
        after_intent(
            board,
            after_intent(
                board,
                after_intent(board, after_intent(board, p, Direction::RotateCW), Direction::RotateCW),
                Direction::RotateCW,
            ),
            Direction::RotateCW,
        ) == p,
{
}

} // verus!
