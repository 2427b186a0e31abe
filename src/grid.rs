//! Cells, grids and their mathematical model.
use vstd::prelude::*;

verus! {

/// Number of columns of the simulated grid.
pub const WINDOW_WIDTH: u16 = 130;

/// Number of rows of the simulated grid.
pub const WINDOW_HEIGHT: u16 = 40;

#[derive(Clone, Copy, PartialEq, Eq, Structural, Debug)]
pub enum CellState {
    Alive,
    Dead,
}

/// One cell: its column `x`, its row `y`, and whether it lives.
#[derive(Clone, Copy, PartialEq, Eq, Structural, Debug)]
pub struct Cell {
    pub x: u16,
    pub y: u16,
    pub state: CellState,
}

/// The states of a board, indexed by column then row.
pub open spec fn states(board: Seq<Vec<Cell>>) -> Seq<Seq<CellState>> {
    Seq::new(board.len(), |x: int| Seq::new(board[x]@.len(), |y: int| board[x]@[y].state))
}

/// A board indexed `board[x][y]`: every column has the same height, both
/// dimensions leave room for one-based terminal coordinates, and every cell
/// stores its own position.
pub open spec fn well_formed(board: Seq<Vec<Cell>>) -> bool {
    &&& board.len() < 0xFFFF
    &&& forall|x: int| 0 <= x < board.len() ==> #[trigger] board[x]@.len() == board[0]@.len()
    &&& board.len() > 0 ==> board[0]@.len() < 0xFFFF
    &&& forall|x: int, y: int|
        #![trigger board[x]@[y]]
        0 <= x < board.len() && 0 <= y < board[x]@.len() ==> board[x]@[y].x == x && board[x]@[y].y
            == y
}

/// The grid of width `w` and height `h` whose live cells are those where `on` holds.
pub open spec fn grid_of(w: nat, h: nat, on: spec_fn(int, int) -> bool) -> Seq<Seq<CellState>> {
    Seq::new(
        w,
        |x: int|
            Seq::new(h, |y: int| if on(x, y) { CellState::Alive } else { CellState::Dead }),
    )
}

/// Whether the cell at `(x, y)` lies in the grid and is alive; a position off
/// the grid is never alive.
pub open spec fn alive(g: Seq<Seq<CellState>>, x: int, y: int) -> bool {
    0 <= x < g.len() && 0 <= y < g[x].len() && g[x][y] == CellState::Alive
}

/// The cell built from two independent fair coin draws: alive exactly when
/// both came up true.
pub fn cell_from_draws(x: u16, y: u16, first: bool, second: bool) -> (r: Cell)
    ensures
        r.x == x,
        r.y == y,
        r.state == (if first && second { CellState::Alive } else { CellState::Dead }),
{
    let state = if first && second {
        CellState::Alive
    } else {
        CellState::Dead
    };
    Cell { x, y, state }
}

/// Relies on rand::random::<bool>: a uniformly drawn boolean from the thread-local
/// generator. Nothing is promised of its value.
#[verifier::external_body]
fn coin_flip() -> (r: bool) {
    rand::random::<bool>()
}

/// A cell at `(x, y)` that is alive with probability one quarter.
pub fn generate_random_cell(x: u16, y: u16) -> (r: Cell)
    ensures
        r.x == x,
        r.y == y,
{
    let first = coin_flip();
    let second = coin_flip();
    cell_from_draws(x, y, first, second)
}

/// A `WINDOW_WIDTH` by `WINDOW_HEIGHT` board with randomly seeded cells.
pub fn initialize_board() -> (board: Vec<Vec<Cell>>)
    ensures
        well_formed(board@),
        board@.len() == WINDOW_WIDTH,
        forall|x: int| 0 <= x < board@.len() ==> #[trigger] board@[x]@.len() == WINDOW_HEIGHT,
{
    let mut board: Vec<Vec<Cell>> = Vec::new();
    let mut i: u16 = 0;
    while i < WINDOW_WIDTH
        invariant
            0 <= i <= WINDOW_WIDTH,
            board@.len() == i,
            forall|x: int| 0 <= x < i ==> #[trigger] board@[x]@.len() == WINDOW_HEIGHT,
            forall|x: int, y: int|
                0 <= x < i && 0 <= y < WINDOW_HEIGHT ==> #[trigger] board@[x]@[y].x == x
                    && board@[x]@[y].y == y,
        decreases WINDOW_WIDTH - i,
    {
        let mut row: Vec<Cell> = Vec::new();
        let mut j: u16 = 0;
        while j < WINDOW_HEIGHT
            invariant
                0 <= j <= WINDOW_HEIGHT,
                row@.len() == j,
                forall|y: int| 0 <= y < j ==> #[trigger] row@[y].x == i && row@[y].y == y,
            decreases WINDOW_HEIGHT - j,
        {
            row.push(generate_random_cell(i, j));
            j = j + 1;
        }
        board.push(row);
        i = i + 1;
    }
    board
}

} // verus!
