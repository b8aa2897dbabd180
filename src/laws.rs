use vstd::prelude::*;

use vstd::arithmetic::div_mod::{lemma_fundamental_div_mod, lemma_mod_pos_bound};

use crate::cell::Cell;
use crate::screen::{
    alternate, blitted, cell_index, channel, hi, in_box, lemma_cell_index, lo, on_outline, Screen,
};

verus! {

/// Two well-formed screens of the same size whose colours agree at every
/// position of the grid hold the same cells.
pub proof fn lemma_grid_ext(a: Screen, b: Screen)
    requires
        a.wf(),
        b.wf(),
        a.spec_width() == b.spec_width(),
        a.spec_height() == b.spec_height(),
        forall|x: int, y: int| a.in_grid(x, y) ==> #[trigger] a.at(x, y) == b.at(x, y),
    ensures
        a.spec_cells() == b.spec_cells(),
{
    let w = a.spec_width() as int;
    let h = a.spec_height() as int;
    assert forall|i: int| 0 <= i < a.spec_cells().len() implies #[trigger] a.spec_cells()[i]
        == b.spec_cells()[i] by {
        let x = i % w;
        let y = i / w;
        lemma_fundamental_div_mod(i, w);
        lemma_mod_pos_bound(i, w);
        assert(i == cell_index(w, x, y)) by (nonlinear_arith)
            requires
                i == w * (i / w) + (i % w),
                x == i % w,
                y == i / w,
        ;
        assert(0 <= y < h) by (nonlinear_arith)
            requires
                i == y * w + x,
                0 <= x < w,
                0 <= i < w * h,
        ;
        assert(a.at(x, y) == b.at(x, y));
    }
    assert(a.spec_cells() =~= b.spec_cells());
}

/// Filling a rectangle gives the same screen whichever order its two column
/// bounds are given in.
pub proof fn lemma_rectfill_column_order(
    prev: Screen,
    a: Screen,
    b: Screen,
    x0: int,
    y0: int,
    x1: int,
    y1: int,
    ix: int,
)
    requires
        prev.wf(),
        a.wf(),
        b.wf(),
        a.repainted(
            &prev,
            |x: int, y: int| in_box(x0, y0, x1, y1, x, y),
            |x: int, y: int| prev.colour(ix),
        ),
        b.repainted(
            &prev,
            |x: int, y: int| in_box(x1, y0, x0, y1, x, y),
            |x: int, y: int| prev.colour(ix),
        ),
    ensures
        a.spec_cells() == b.spec_cells(),
        a.spec_clear() == b.spec_clear(),
{
    assert forall|x: int, y: int| a.in_grid(x, y) implies #[trigger] a.at(x, y) == b.at(x, y) by {
        assert(in_box(x0, y0, x1, y1, x, y) == in_box(x1, y0, x0, y1, x, y));
    }
    lemma_grid_ext(a, b);
}

/// Drawing an outline changes, on each row strictly between its first and
/// last, at most the two boundary columns, and paints every column between
/// the bounds on its first and last rows.
pub proof fn lemma_rect_rows(prev: Screen, r: Screen, x0: int, y0: int, x1: int, y1: int, ix: int)
    requires
        prev.wf(),
        r.repainted(
            &prev,
            |x: int, y: int| on_outline(x0, y0, x1, y1, x, y),
            |x: int, y: int| prev.colour(ix),
        ),
    ensures
        forall|x: int, y: int|
            #![trigger r.at(x, y)]
            r.in_grid(x, y) && y0 < y < y1 && r.at(x, y) != prev.at(x, y) ==> x == x0 || x == x1,
        forall|x: int, y: int|
            #![trigger r.at(x, y)]
            r.in_grid(x, y) && y0 <= y1 && (y == y0 || y == y1) && lo(x0, x1) <= x <= hi(x0, x1)
                ==> r.at(x, y) == prev.colour(ix),
{
}

/// An outline drawn in two alternating colours has the first colour on every
/// even column it paints and the second on every odd one.
pub proof fn lemma_rect_alt_parity(
    prev: Screen,
    r: Screen,
    x0: int,
    y0: int,
    x1: int,
    y1: int,
    a: int,
    b: int,
)
    requires
        prev.wf(),
        r.repainted(
            &prev,
            |x: int, y: int| on_outline(x0, y0, x1, y1, x, y),
            |x: int, y: int| alternate(prev.colour(a), prev.colour(b), x),
        ),
    ensures
        forall|x: int, y: int|
            #![trigger r.at(x, y)]
            r.in_grid(x, y) && on_outline(x0, y0, x1, y1, x, y) ==> r.at(x, y) == if x % 2 == 0 {
                prev.colour(a)
            } else {
                prev.colour(b)
            },
{
}

/// An outline whose corners coincide paints that one cell and nothing else.
pub proof fn lemma_rect_single_cell(prev: Screen, r: Screen, x: int, y: int, ix: int)
    requires
        prev.wf(),
        r.wf(),
        prev.in_grid(x, y),
        r.repainted(
            &prev,
            |x2: int, y2: int| on_outline(x, y, x, y, x2, y2),
            |x2: int, y2: int| prev.colour(ix),
        ),
    ensures
        r.spec_cells() == prev.spec_cells().update(
            cell_index(prev.spec_width() as int, x, y),
            prev.colour(ix),
        ),
{
    let w = prev.spec_width() as int;
    let h = prev.spec_height() as int;
    let cells = prev.spec_cells().update(cell_index(w, x, y), prev.colour(ix));
    assert forall|i: int| 0 <= i < r.spec_cells().len() implies #[trigger] r.spec_cells()[i]
        == cells[i] by {
        let x2 = i % w;
        let y2 = i / w;
        lemma_fundamental_div_mod(i, w);
        lemma_mod_pos_bound(i, w);
        assert(i == cell_index(w, x2, y2)) by (nonlinear_arith)
            requires
                i == w * (i / w) + (i % w),
                x2 == i % w,
                y2 == i / w,
        ;
        assert(0 <= y2 < h) by (nonlinear_arith)
            requires
                i == y2 * w + x2,
                0 <= x2 < w,
                0 <= i < w * h,
        ;
        lemma_cell_index(w, h, x, y, x2, y2);
        assert(r.at(x2, y2) == r.spec_cells()[i]);
    }
    lemma_cell_index(w, h, x, y, x, y);
    assert(r.spec_cells() =~= cells);
}

/// Blitting a grid whose cells all hold one colour into a buffer of exactly
/// four bytes per cell gives that colour's four packed bytes, over and over.
pub proof fn lemma_draw_uniform(cells: Seq<Cell>, c: Cell, before: Seq<u8>, after: Seq<u8>)
    requires
        forall|i: int| 0 <= i < cells.len() ==> #[trigger] cells[i] == c,
        before.len() == 4 * cells.len(),
        blitted(cells, before, after),
    ensures
        after.len() == 4 * cells.len(),
        forall|i: int| 0 <= i < after.len() ==> #[trigger] after[i] == seq![c.r, c.g, c.b, 255u8][i % 4],
{
    assert forall|i: int| 0 <= i < after.len() implies #[trigger] after[i] == seq![
        c.r,
        c.g,
        c.b,
        255u8,
    ][i % 4] by {
        assert(after[i] == channel(cells[i / 4], i % 4));
    }
}

} // verus!
