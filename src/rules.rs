//! The generation step: neighbor counting on a hard-edged grid and the
//! transition rule, applied to a full snapshot of the previous generation.
use vstd::prelude::*;
use crate::grid::{alive, states, well_formed, Cell, CellState};

verus! {

/// 1 if the cell at `(x, y)` is on the grid and alive, else 0.
pub open spec fn live_at(g: Seq<Seq<CellState>>, x: int, y: int) -> int {
    if alive(g, x, y) {
        1
    } else {
        0
    }
}

/// The number of live cells among the eight positions around `(x, y)`;
/// positions off the grid count as dead.
pub open spec fn neighbor_count(g: Seq<Seq<CellState>>, x: int, y: int) -> int {
    live_at(g, x - 1, y - 1) + live_at(g, x - 1, y) + live_at(g, x - 1, y + 1) + live_at(g, x, y - 1)
        + live_at(g, x, y + 1) + live_at(g, x + 1, y - 1) + live_at(g, x + 1, y) + live_at(
        g,
        x + 1,
        y + 1,
    )
}

/// The transition rule: a live cell survives with two or three live
/// neighbors, a dead cell is born with exactly three, every other cell is dead.
pub open spec fn rule(s: CellState, n: int) -> CellState {
    if (s == CellState::Alive && (n == 2 || n == 3)) || (s == CellState::Dead && n == 3) {
        CellState::Alive
    } else {
        CellState::Dead
    }
}

/// The next generation of `g`: each cell's rule applied to its state and its
/// neighbor count, all read from `g` itself.
pub open spec fn generation(g: Seq<Seq<CellState>>) -> Seq<Seq<CellState>> {
    Seq::new(
        g.len(),
        |x: int| Seq::new(g[x].len(), |y: int| rule(g[x][y], neighbor_count(g, x, y))),
    )
}

/// The state that a cell in state `state` with `n` live neighbors has in the
/// next generation.
pub fn next_state(state: CellState, n: i32) -> (r: CellState)
    ensures
        r == rule(state, n as int),
{
    match state {
        CellState::Alive => if n == 2 || n == 3 {
            CellState::Alive
        } else {
            CellState::Dead
        },
        CellState::Dead => if n == 3 {
            CellState::Alive
        } else {
            CellState::Dead
        },
    }
}

/// 1 if `(x, y)` is on the board and its cell is alive, else 0.
fn live_at_position(board: &[Vec<Cell>], x: i32, y: i32) -> (r: i32)
    ensures
        r == live_at(states(board@), x as int, y as int),
{
    if x < 0 || y < 0 || x as usize >= board.len() {
        return 0;
    }
    let column = &board[x as usize];
    if y as usize >= column.len() {
        0
    } else if column[y as usize].state == CellState::Alive {
        1
    } else {
        0
    }
}

/// The number of live neighbors of `cell` on `board`; positions off the
/// board are skipped, never wrapped.
pub fn count_neighbors(cell: &Cell, board: &[Vec<Cell>]) -> (r: i32)
    ensures
        r == neighbor_count(states(board@), cell.x as int, cell.y as int),
        0 <= r <= 8,
{
    let x = cell.x as i32;
    let y = cell.y as i32;
    let mut n: i32 = 0;
    n = n + live_at_position(board, x - 1, y - 1);
    n = n + live_at_position(board, x - 1, y);
    n = n + live_at_position(board, x - 1, y + 1);
    n = n + live_at_position(board, x, y - 1);
    n = n + live_at_position(board, x, y + 1);
    n = n + live_at_position(board, x + 1, y - 1);
    n = n + live_at_position(board, x + 1, y);
    n = n + live_at_position(board, x + 1, y + 1);
    n
}

/// `c` holds the next-generation cell of position `(x, y)` of `g`.
spec fn stepped_cell(c: Cell, g: Seq<Seq<CellState>>, x: int, y: int) -> bool {
    c.x == x && c.y == y && c.state == rule(g[x][y], neighbor_count(g, x, y))
}

/// The first `n` cells of `column` are the next-generation cells of column `x` of `g`.
spec fn stepped_column(column: Seq<Cell>, g: Seq<Seq<CellState>>, x: int, n: int) -> bool {
    forall|y: int| 0 <= y < n ==> stepped_cell(#[trigger] column[y], g, x, y)
}

/// The next generation of `board`, built into a fresh board while `board`
/// is only read, so that no cell sees a neighbor's new state.
pub fn next_generation(board: &[Vec<Cell>]) -> (r: Vec<Vec<Cell>>)
    requires
        well_formed(board@),
    ensures
        well_formed(r@),
        states(r@) == generation(states(board@)),
{
    let ghost g = states(board@);
    let mut next: Vec<Vec<Cell>> = Vec::new();
    let mut i: usize = 0;
    while i < board.len()
        invariant
            well_formed(board@),
            g == states(board@),
            0 <= i <= board@.len(),
            next@.len() == i,
            forall|x: int|
                0 <= x < i ==> #[trigger] next@[x]@.len() == board@[x]@.len() && stepped_column(
                    next@[x]@,
                    g,
                    x,
                    board@[x]@.len() as int,
                ),
        decreases board@.len() - i,
    {
        let column = &board[i];
        let mut new_column: Vec<Cell> = Vec::new();
        let mut j: usize = 0;
        while j < column.len()
            invariant
                well_formed(board@),
                g == states(board@),
                0 <= i < board@.len(),
                column@ == board@[i as int]@,
                0 <= j <= column@.len(),
                new_column@.len() == j,
                stepped_column(new_column@, g, i as int, j as int),
            decreases column@.len() - j,
        {
            let cell = column[j];
            assert(g[i as int][j as int] == cell.state);
            let n = count_neighbors(&cell, board);
            let ghost before = new_column@;
            new_column.push(Cell { x: cell.x, y: cell.y, state: next_state(cell.state, n) });
            assert forall|y: int| 0 <= y < j + 1 implies stepped_cell(#[trigger] new_column@[y], g, i as int, y) by {
                if y < j {
                    assert(new_column@[y] == before[y]);
                }
            }
            j = j + 1;
        }
        let ghost prev = next@;
        next.push(new_column);
        assert forall|x: int| 0 <= x <= i implies #[trigger] next@[x]@.len() == board@[x]@.len() && stepped_column(
                    next@[x]@,
                    g,
                    x,
                    board@[x]@.len() as int,
                ) by {
            if x < i {
                assert(next@[x] == prev[x]);
            }
        }
        i = i + 1;
    }
    assert forall|x: int| 0 <= x < next@.len() implies #[trigger] states(next@)[x] =~= generation(g)[x] by {
        assert(next@[x]@.len() == board@[x]@.len());
        assert forall|y: int| 0 <= y < next@[x]@.len() implies states(next@)[x][y] == generation(g)[x][y] by {
            assert(stepped_cell(next@[x]@[y], g, x, y));
        }
    }
    assert(states(next@) =~= generation(g));
    assert(well_formed(next@)) by {
        assert forall|x: int, y: int| 0 <= x < next@.len() && 0 <= y < next@[x]@.len() implies #[trigger] next@[x]@[y].x == x && next@[x]@[y].y == y by {
            assert(next@[x]@.len() == board@[x]@.len());
            assert(stepped_cell(next@[x]@[y], g, x, y));
        }
        if next@.len() > 0 {
            assert forall|x: int| 0 <= x < next@.len() implies #[trigger] next@[x]@.len() == next@[0]@.len() by {
                assert(board@[x]@.len() == board@[0]@.len());
            }
        }
    }
    next
}

/// Advances `board` by one generation in place, reading only the snapshot of
/// the previous generation.
pub fn update_board(board: &mut Vec<Vec<Cell>>)
    requires
        well_formed(old(board)@),
    ensures
        well_formed(final(board)@),
        states(final(board)@) == generation(states(old(board)@)),
{
    let next = next_generation(board.as_slice());
    *board = next;
}

} // verus!
