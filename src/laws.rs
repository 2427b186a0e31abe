//! Properties of the generation step, stated over the grid model and proved.
use vstd::prelude::*;
use crate::grid::{grid_of, CellState};
use crate::rules::{generation, live_at, neighbor_count};

verus! {

/// The `w` by `h` grid with no live cell.
pub open spec fn empty_grid(w: nat, h: nat) -> Seq<Seq<CellState>> {
    grid_of(w, h, |x: int, y: int| false)
}

/// The `w` by `h` grid whose only live cells form the 2 by 2 square with top-left
/// corner `(bx, by)`.
pub open spec fn block(w: nat, h: nat, bx: int, by: int) -> Seq<Seq<CellState>> {
    grid_of(w, h, |x: int, y: int| bx <= x <= bx + 1 && by <= y <= by + 1)
}

/// The `w` by `h` grid whose only live cells are three in a row along the x axis,
/// centered on `(cx, cy)`.
pub open spec fn blinker_horizontal(w: nat, h: nat, cx: int, cy: int) -> Seq<Seq<CellState>> {
    grid_of(w, h, |x: int, y: int| y == cy && cx - 1 <= x <= cx + 1)
}

/// The `w` by `h` grid whose only live cells are three in a column along the y
/// axis, centered on `(cx, cy)`.
pub open spec fn blinker_vertical(w: nat, h: nat, cx: int, cy: int) -> Seq<Seq<CellState>> {
    grid_of(w, h, |x: int, y: int| x == cx && cy - 1 <= y <= cy + 1)
}

/// Edges do not wrap: the corner cells `(0, 0)` and `(w - 1, h - 1)` of a
/// rectangular grid have only their three on-grid neighbors counted, so at
/// most three.
pub proof fn lemma_corner_neighbors(g: Seq<Seq<CellState>>)
    requires
        g.len() > 0,
        forall|x: int| 0 <= x < g.len() ==> #[trigger] g[x].len() == g[0].len(),
        g[0].len() > 0,
    ensures
        neighbor_count(g, 0, 0) == live_at(g, 1, 0) + live_at(g, 0, 1) + live_at(g, 1, 1),
        neighbor_count(g, 0, 0) <= 3,
        neighbor_count(g, g.len() - 1, g[0].len() - 1) == live_at(g, g.len() - 2, g[0].len() - 2)
            + live_at(g, g.len() - 2, g[0].len() - 1) + live_at(g, g.len() - 1, g[0].len() - 2),
        neighbor_count(g, g.len() - 1, g[0].len() - 1) <= 3,
{
    let w = g.len() as int;
    let h = g[0].len() as int;
    assert(g[w - 1].len() == h);
    if w >= 2 {
        assert(g[w - 2].len() == h);
    }
}

/// A grid with no live cell stays without one.
pub proof fn lemma_empty_stays_empty(w: nat, h: nat)
    ensures
        generation(empty_grid(w, h)) == empty_grid(w, h),
{
    let g = empty_grid(w, h);
    assert forall|x: int| 0 <= x < w implies #[trigger] generation(g)[x] =~= g[x] by {
        assert forall|y: int| 0 <= y < h implies generation(g)[x][y] == g[x][y] by {
            assert(neighbor_count(g, x, y) == 0);
        }
    }
    assert(generation(g) =~= g);
}

/// A 2 by 2 block lying wholly on the grid is a still life.
pub proof fn lemma_block_is_still(w: nat, h: nat, bx: int, by: int)
    requires
        0 <= bx,
        bx + 1 < w,
        0 <= by,
        by + 1 < h,
    ensures
        generation(block(w, h, bx, by)) == block(w, h, bx, by),
{
    let g = block(w, h, bx, by);
    assert forall|x: int| 0 <= x < w implies #[trigger] generation(g)[x] =~= g[x] by {
        assert forall|y: int| 0 <= y < h implies generation(g)[x][y] == g[x][y] by {
        }
    }
    assert(generation(g) =~= g);
}

/// A row of three turns into a column of three.
proof fn lemma_blinker_row_to_column(w: nat, h: nat, cx: int, cy: int)
    requires
        1 <= cx,
        cx + 1 < w,
        1 <= cy,
        cy + 1 < h,
    ensures
        generation(blinker_horizontal(w, h, cx, cy)) == blinker_vertical(w, h, cx, cy),
{
    let hz = blinker_horizontal(w, h, cx, cy);
    let vt = blinker_vertical(w, h, cx, cy);
    assert forall|x: int| 0 <= x < w implies #[trigger] generation(hz)[x] =~= vt[x] by {
        assert forall|y: int| 0 <= y < h implies generation(hz)[x][y] == vt[x][y] by {
            if y < cy - 1 || y > cy + 1 || x < cx - 2 || x > cx + 2 {
                assert(neighbor_count(hz, x, y) == 0);
            } else if x == cx {
                if y == cy {
                    assert(neighbor_count(hz, x, y) == 2);
                } else {
                    assert(neighbor_count(hz, x, y) == 3);
                }
            } else if y == cy {
                assert(neighbor_count(hz, x, y) <= 1);
            } else {
                assert(neighbor_count(hz, x, y) <= 2);
            }
        }
    }
    assert(generation(hz) =~= vt);
}

/// A column of three turns into a row of three.
proof fn lemma_blinker_column_to_row(w: nat, h: nat, cx: int, cy: int)
    requires
        1 <= cx,
        cx + 1 < w,
        1 <= cy,
        cy + 1 < h,
    ensures
        generation(blinker_vertical(w, h, cx, cy)) == blinker_horizontal(w, h, cx, cy),
{
    let hz = blinker_horizontal(w, h, cx, cy);
    let vt = blinker_vertical(w, h, cx, cy);
    assert forall|x: int| 0 <= x < w implies #[trigger] generation(vt)[x] =~= hz[x] by {
        assert forall|y: int| 0 <= y < h implies generation(vt)[x][y] == hz[x][y] by {
            if x < cx - 1 || x > cx + 1 || y < cy - 2 || y > cy + 2 {
                assert(neighbor_count(vt, x, y) == 0);
            } else if y == cy {
                if x == cx {
                    assert(neighbor_count(vt, x, y) == 2);
                } else {
                    assert(neighbor_count(vt, x, y) == 3);
                }
            } else if x == cx {
                assert(neighbor_count(vt, x, y) <= 1);
            } else {
                assert(neighbor_count(vt, x, y) <= 2);
            }
        }
    }
    assert(generation(vt) =~= hz);
}

/// A blinker whose three cells and both orientations lie on the grid turns from
/// a row into a column and back, so it returns after exactly two steps and not
/// after one.
pub proof fn lemma_blinker_oscillates(w: nat, h: nat, cx: int, cy: int)
    requires
        1 <= cx,
        cx + 1 < w,
        1 <= cy,
        cy + 1 < h,
    ensures
        generation(blinker_horizontal(w, h, cx, cy)) == blinker_vertical(w, h, cx, cy),
        generation(blinker_vertical(w, h, cx, cy)) == blinker_horizontal(w, h, cx, cy),
        generation(generation(blinker_horizontal(w, h, cx, cy))) == blinker_horizontal(w, h, cx, cy),
        generation(blinker_horizontal(w, h, cx, cy)) != blinker_horizontal(w, h, cx, cy),
{
    lemma_blinker_row_to_column(w, h, cx, cy);
    lemma_blinker_column_to_row(w, h, cx, cy);
    let hz = blinker_horizontal(w, h, cx, cy);
    let vt = blinker_vertical(w, h, cx, cy);
    assert(vt[cx][cy - 1] != hz[cx][cy - 1]);
}

} // verus!
