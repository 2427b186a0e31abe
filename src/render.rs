//! Rendering: the glyph written at each cell's position, and the terminal text
//! that writes one glyph there and parks the cursor past the grid.
use vstd::prelude::*;
use vstd::string::StringExecFns;
use crate::grid::{states, well_formed, Cell, CellState, WINDOW_HEIGHT, WINDOW_WIDTH};

verus! {

/// The glyph of a live cell: a full block.
pub const ALIVE_SYMBOL: char = '\u{2588}';

/// The glyph of a dead cell: a space.
pub const DEAD_SYMBOL: char = ' ';

/// One write of the renderer: column, row and glyph.
pub type GlyphWrite = (u16, u16, char);

pub open spec fn glyph(s: CellState) -> char {
    match s {
        CellState::Alive => ALIVE_SYMBOL,
        CellState::Dead => DEAD_SYMBOL,
    }
}

/// The writes for one column, top to bottom.
pub open spec fn column_writes(column: Seq<Cell>) -> Seq<GlyphWrite> {
    column.map_values(|c: Cell| (c.x, c.y, glyph(c.state)))
}

/// The writes for a whole board, column after column.
pub open spec fn writes(board: Seq<Vec<Cell>>) -> Seq<GlyphWrite>
    decreases board.len(),
{
    if board.len() == 0 {
        seq![]
    } else {
        writes(board.drop_last()) + column_writes(board.last()@)
    }
}

/// The glyph for a cell state.
pub fn glyph_of(state: CellState) -> (r: char)
    ensures
        r == glyph(state),
{
    match state {
        CellState::Alive => ALIVE_SYMBOL,
        CellState::Dead => DEAD_SYMBOL,
    }
}

/// Every write that drawing `board` makes, in order: one per cell, at the
/// cell's own position, with the glyph of its state.
pub fn render_board(board: &[Vec<Cell>]) -> (r: Vec<GlyphWrite>)
    ensures
        r@ == writes(board@),
{
    let mut out: Vec<GlyphWrite> = Vec::new();
    let mut i: usize = 0;
    while i < board.len()
        invariant
            0 <= i <= board@.len(),
            out@ == writes(board@.take(i as int)),
        decreases board@.len() - i,
    {
        let column = &board[i];
        let mut j: usize = 0;
        while j < column.len()
            invariant
                0 <= i < board@.len(),
                column@ == board@[i as int]@,
                0 <= j <= column@.len(),
                out@ == writes(board@.take(i as int)) + column_writes(column@.take(j as int)),
            decreases column@.len() - j,
        {
            let cell = column[j];
            out.push((cell.x, cell.y, glyph_of(cell.state)));
            assert(column@.take(j + 1) =~= column@.take(j as int).push(cell));
            assert(column_writes(column@.take(j + 1)) =~= column_writes(column@.take(j as int)).push(
                (cell.x, cell.y, glyph(cell.state)),
            ));
            j = j + 1;
        }
        assert(column@.take(j as int) =~= column@);
        assert(board@.take(i + 1).drop_last() =~= board@.take(i as int));
        i = i + 1;
    }
    assert(board@.take(i as int) =~= board@);
    out
}

/// Boards with the same cell states are drawn with the same writes.
proof fn lemma_writes_prefix(b1: Seq<Vec<Cell>>, b2: Seq<Vec<Cell>>, n: int)
    requires
        well_formed(b1),
        well_formed(b2),
        states(b1) == states(b2),
        0 <= n <= b1.len(),
    ensures
        writes(b1.take(n)) == writes(b2.take(n)),
    decreases n,
{
    assert(b1.len() == states(b1).len() && b2.len() == states(b2).len());
    if n > 0 {
        lemma_writes_prefix(b1, b2, n - 1);
        assert(b1.take(n).drop_last() =~= b1.take(n - 1));
        assert(b2.take(n).drop_last() =~= b2.take(n - 1));
        let x = n - 1;
        assert(b1[x]@.len() == states(b1)[x].len() && b2[x]@.len() == states(b2)[x].len());
        assert(b1[x]@.len() == b2[x]@.len());
        assert forall|y: int| 0 <= y < b1[x]@.len() implies #[trigger] b1[x]@[y] == b2[x]@[y] by {
            assert(states(b1)[x][y] == states(b2)[x][y]);
            assert(states(b1)[x][y] == b1[x]@[y].state && states(b2)[x][y] == b2[x]@[y].state);
            assert(b1[x]@[y].x == x && b1[x]@[y].y == y);
            assert(b2[x]@[y].x == x && b2[x]@[y].y == y);
        }
        assert(b1[x]@ =~= b2[x]@);
        assert(column_writes(b1[x]@) =~= column_writes(b2[x]@));
    }
}

/// Rendering depends on the cell states alone: rendering a board twice, or two
/// well-formed boards with the same states, gives the identical sequence of
/// (position, glyph) writes.
pub proof fn lemma_render_is_idempotent(b1: Seq<Vec<Cell>>, b2: Seq<Vec<Cell>>)
    requires
        well_formed(b1),
        well_formed(b2),
        states(b1) == states(b2),
    ensures
        writes(b1) == writes(b2),
{
    assert(b1.len() == states(b1).len() && b2.len() == states(b2).len());
    lemma_writes_prefix(b1, b2, b1.len() as int);
    assert(b1.take(b1.len() as int) =~= b1);
    assert(b2.take(b2.len() as int) =~= b2);
}

/// The decimal digit character of `d`, for `d < 10`.
pub open spec fn digit(d: nat) -> char {
    if d == 0 { '0' } else if d == 1 { '1' } else if d == 2 { '2' } else if d == 3 { '3' }
    else if d == 4 { '4' } else if d == 5 { '5' } else if d == 6 { '6' } else if d == 7 { '7' }
    else if d == 8 { '8' } else { '9' }
}

/// `n` in decimal, without leading zeros.
pub open spec fn decimal(n: nat) -> Seq<char>
    decreases n,
{
    if n < 10 {
        seq![digit(n)]
    } else {
        decimal(n / 10) + seq![digit(n % 10)]
    }
}

/// The terminal escape that moves the cursor to one-based column `col`, row `row`.
pub open spec fn goto_text(col: nat, row: nat) -> Seq<char> {
    seq!['\x1b', '['] + decimal(row) + seq![';'] + decimal(col) + seq!['H']
}

/// Relies on termion's `From<cursor::Goto> for String`: ESC `[`, the row, `;`,
/// the column, `H`, both numbers in decimal.
#[verifier::external_body]
fn goto(col: u16, row: u16) -> (r: String)
    ensures
        r@ == goto_text(col as nat, row as nat),
{
    String::from(termion::cursor::Goto(col, row))
}

/// Relies on std's `ToString` for `char`: the one-character string.
#[verifier::external_body]
fn char_text(c: char) -> (r: String)
    ensures
        r@ == seq![c],
{
    c.to_string()
}

/// The terminal text that draws glyph `c` at grid position `(x, y)` (terminal
/// column `x + 1`, row `y + 1`) and then parks the cursor just past the
/// bottom-right corner of the grid.
pub fn print_char(x: u16, y: u16, c: char) -> (r: String)
    requires
        x < 0xFFFF,
        y < 0xFFFF,
    ensures
        r@ == goto_text((x + 1) as nat, (y + 1) as nat) + seq![c] + goto_text(
            (WINDOW_WIDTH + 1) as nat,
            (WINDOW_HEIGHT + 1) as nat,
        ),
{
    let mut text = goto(x + 1, y + 1);
    let glyph = char_text(c);
    text.append(glyph.as_str());
    let park = goto(WINDOW_WIDTH + 1, WINDOW_HEIGHT + 1);
    text.append(park.as_str());
    text
}

} // verus!
