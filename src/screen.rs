use vstd::prelude::*;

use crate::cell::{default_palette, default_palette_seq, white, Cell};

verus! {

/// A `width` by `height` grid of colours, stored row by row, with a bound
/// sixteen-colour palette and a clear colour.
#[derive(Debug, Clone)]
pub struct Screen {
    pub cells: Vec<Cell>,
    pub clear: Cell,
    width: usize,
    height: usize,
    palette: [Cell; 16],
}

/// Where cell `(x, y)` sits in a row-major grid `w` cells wide.
pub open spec fn cell_index(w: int, x: int, y: int) -> int {
    y * w + x
}

/// Distinct cells of a grid sit at distinct places, and every cell of a
/// `w` by `h` grid sits below `w * h`.
pub proof fn lemma_cell_index(w: int, h: int, x: int, y: int, x2: int, y2: int)
    requires
        0 <= x < w,
        0 <= x2 < w,
        0 <= y < h,
        0 <= y2 < h,
    ensures
        0 <= cell_index(w, x, y) < w * h,
        0 <= cell_index(w, x2, y2) < w * h,
        cell_index(w, x, y) == cell_index(w, x2, y2) <==> (x == x2 && y == y2),
{
    assert(0 <= y * w) by (nonlinear_arith)
        requires
            0 <= y,
            0 < w,
    ;
    assert(y * w + x < w * h) by (nonlinear_arith)
        requires
            0 <= x < w,
            0 <= y < h,
    ;
    assert(0 <= y2 * w + x2 < w * h) by (nonlinear_arith)
        requires
            0 <= x2 < w,
            0 <= y2 < h,
    ;
    if y < y2 {
        assert(y * w + x < y2 * w + x2) by (nonlinear_arith)
            requires
                y < y2,
                0 <= x < w,
                0 <= x2,
        ;
    } else if y2 < y {
        assert(y2 * w + x2 < y * w + x) by (nonlinear_arith)
            requires
                y2 < y,
                0 <= x2 < w,
                0 <= x,
        ;
    }
}

/// The smaller of two column bounds.
pub open spec fn lo(a: int, b: int) -> int {
    if b < a {
        b
    } else {
        a
    }
}

/// The larger of two column bounds.
pub open spec fn hi(a: int, b: int) -> int {
    if b < a {
        a
    } else {
        b
    }
}

/// `(x, y)` lies in the rectangle spanned by columns `x0` and `x1` (in either
/// order) and rows `y0` to `y1`.
pub open spec fn in_box(x0: int, y0: int, x1: int, y1: int, x: int, y: int) -> bool {
    lo(x0, x1) <= x <= hi(x0, x1) && y0 <= y <= y1
}

/// `(x, y)` lies on the outline of that rectangle: on its first or last row,
/// or on one of its two boundary columns.
pub open spec fn on_outline(x0: int, y0: int, x1: int, y1: int, x: int, y: int) -> bool {
    in_box(x0, y0, x1, y1, x, y) && (y == y0 || y == y1 || x == lo(x0, x1) || x == hi(x0, x1))
}

/// The colour of column `x` when even columns take `even` and odd ones `odd`.
pub open spec fn alternate(even: Cell, odd: Cell, x: int) -> Cell {
    if x % 2 == 0 {
        even
    } else {
        odd
    }
}

/// Byte `k` (0 to 3) of the packed form of `c`: red, green, blue, then an
/// opaque alpha of 255.
pub open spec fn channel(c: Cell, k: int) -> u8 {
    if k == 0 {
        c.r
    } else if k == 1 {
        c.g
    } else if k == 2 {
        c.b
    } else {
        255
    }
}

/// How many cells a blit of `cells` into a buffer of `len` bytes copies: one
/// four-byte group per cell, as many as both sides have.
pub open spec fn blit_count(cells: Seq<Cell>, len: int) -> int {
    if cells.len() < len / 4 {
        cells.len() as int
    } else {
        len / 4
    }
}

/// `after` is `before` with its first `blit_count` four-byte groups holding
/// the packed colours of `cells` in order, and every later byte kept.
pub open spec fn blitted(cells: Seq<Cell>, before: Seq<u8>, after: Seq<u8>) -> bool {
    let n = blit_count(cells, before.len() as int);
    &&& after.len() == before.len()
    &&& forall|i: int| 0 <= i < 4 * n ==> #[trigger] after[i] == channel(cells[i / 4], i % 4)
    &&& forall|i: int| 4 * n <= i < after.len() ==> #[trigger] after[i] == before[i]
}

impl Screen {
    /// The number of columns.
    pub closed spec fn spec_width(&self) -> nat {
        self.width as nat
    }

    /// The number of rows.
    pub closed spec fn spec_height(&self) -> nat {
        self.height as nat
    }

    /// The colours of the grid, row by row.
    pub closed spec fn spec_cells(&self) -> Seq<Cell> {
        self.cells@
    }

    /// The colour that `clear` fills the grid with.
    pub closed spec fn spec_clear(&self) -> Cell {
        self.clear
    }

    /// The bound palette, by index.
    pub closed spec fn spec_palette(&self) -> Seq<Cell> {
        self.palette@
    }

    /// The screen's shape holds: positive dimensions, one cell for each
    /// position of the grid, and sixteen palette entries.
    pub open spec fn wf(&self) -> bool {
        &&& self.spec_width() > 0
        &&& self.spec_height() > 0
        &&& self.spec_width() * self.spec_height() <= usize::MAX
        &&& self.spec_cells().len() == self.spec_width() * self.spec_height()
        &&& self.spec_palette().len() == 16
    }

    /// `(x, y)` is a position of the grid.
    pub open spec fn in_grid(&self, x: int, y: int) -> bool {
        0 <= x < self.spec_width() && 0 <= y < self.spec_height()
    }

    /// The colour at `(x, y)`.
    pub open spec fn at(&self, x: int, y: int) -> Cell {
        self.spec_cells()[cell_index(self.spec_width() as int, x, y)]
    }

    /// The colour of palette entry `ix`.
    pub open spec fn colour(&self, ix: int) -> Cell {
        self.spec_palette()[ix]
    }

    /// `self` has the dimensions and palette of `prev`.
    pub open spec fn same_frame(&self, prev: &Screen) -> bool {
        &&& self.spec_width() == prev.spec_width()
        &&& self.spec_height() == prev.spec_height()
        &&& self.spec_palette() == prev.spec_palette()
        &&& self.spec_cells().len() == prev.spec_cells().len()
    }

    /// `self` is `prev` with every cell of the grid replaced by `paint(x, y)`
    /// where `region(x, y)` holds, and every other cell kept.
    pub open spec fn repainted(
        &self,
        prev: &Screen,
        region: spec_fn(int, int) -> bool,
        paint: spec_fn(int, int) -> Cell,
    ) -> bool {
        &&& self.same_frame(prev)
        &&& self.spec_clear() == prev.spec_clear()
        &&& forall|x: int, y: int|
            #![trigger self.at(x, y)]
            self.in_grid(x, y) ==> self.at(x, y) == if region(x, y) {
                paint(x, y)
            } else {
                prev.at(x, y)
            }
    }

    /// Creates a screen of the given size bound to the built-in palette.
    pub fn new(width: usize, height: usize) -> (s: Self)
        requires
            width > 0,
            height > 0,
            width * height <= usize::MAX,
        ensures
            s.wf(),
            s.spec_width() == width,
            s.spec_height() == height,
            s.spec_palette() == default_palette_seq(),
            s.spec_clear() == default_palette_seq()[0],
            forall|i: int| 0 <= i < s.spec_cells().len() ==> #[trigger] s.spec_cells()[i] == white(),
    {
        Self::new_with_palette(width, height, default_palette())
    }

    /// Creates a screen of the given size bound to a copy of `palette`; every
    /// cell starts white and the clear colour is palette entry 0.
    pub fn new_with_palette(width: usize, height: usize, palette: [Cell; 16]) -> (s: Self)
        requires
            width > 0,
            height > 0,
            width * height <= usize::MAX,
        ensures
            s.wf(),
            s.spec_width() == width,
            s.spec_height() == height,
            s.spec_palette() == palette@,
            s.spec_clear() == palette@[0],
            forall|i: int| 0 <= i < s.spec_cells().len() ==> #[trigger] s.spec_cells()[i] == white(),
    {
        let n: usize = width * height;
        let mut cells: Vec<Cell> = Vec::with_capacity(n);
        let mut i: usize = 0;
        while i < n
            invariant
                i <= n,
                cells@.len() == i,
                forall|j: int| 0 <= j < i ==> #[trigger] cells@[j] == white(),
            decreases n - i,
        {
            cells.push(Cell::default());
            i = i + 1;
        }
        Screen { cells, clear: palette[0], width, height, palette }
    }

    /// Makes palette entry `ix` the clear colour; the cells are left as they are.
    pub fn set_clear(&mut self, ix: usize)
        requires
            old(self).wf(),
            ix < 16,
        ensures
            final(self).wf(),
            final(self).same_frame(old(self)),
            final(self).spec_cells() == old(self).spec_cells(),
            final(self).spec_clear() == old(self).colour(ix as int),
    {
        self.clear = self.palette[ix];
    }

    /// Fills every cell with the clear colour.
    pub fn clear(&mut self)
        requires
            old(self).wf(),
        ensures
            final(self).wf(),
            final(self).same_frame(old(self)),
            final(self).spec_clear() == old(self).spec_clear(),
            forall|i: int|
                0 <= i < final(self).spec_cells().len() ==> #[trigger] final(self).spec_cells()[i]
                    == old(self).spec_clear(),
    {
        let n = self.cells.len();
        let mut i: usize = 0;
        while i < n
            invariant
                self.wf(),
                self.same_frame(old(self)),
                self.clear == old(self).spec_clear(),
                n == self.cells@.len(),
                i <= n,
                forall|j: int| 0 <= j < i ==> #[trigger] self.cells@[j] == self.clear,
            decreases n - i,
        {
            self.cells[i] = self.clear;
            i = i + 1;
        }
    }

    /// Paints cell `(x, y)` with palette entry `ix`; no other cell changes.
    pub fn set(&mut self, x: usize, y: usize, ix: usize)
        requires
            old(self).wf(),
            old(self).in_grid(x as int, y as int),
            ix < 16,
        ensures
            final(self).wf(),
            final(self).spec_cells() == old(self).spec_cells().update(
                cell_index(old(self).spec_width() as int, x as int, y as int),
                old(self).colour(ix as int),
            ),
            final(self).repainted(
                old(self),
                |x2: int, y2: int| x2 == x && y2 == y,
                |x2: int, y2: int| old(self).colour(ix as int),
            ),
    {
        proof {
            lemma_cell_index(self.width as int, self.height as int, x as int, y as int, x as int, y as int);
        }
        assert(y * self.width <= y * self.width + x < self.width * self.height);
        let i = y * self.width + x;
        let c = self.palette[ix];
        self.cells[i] = c;
        proof {
            let w = self.width as int;
            let h = self.height as int;
            assert forall|x2: int, y2: int| #[trigger]
                self.in_grid(x2, y2) implies self.at(x2, y2) == if x2 == x && y2 == y {
                old(self).colour(ix as int)
            } else {
                old(self).at(x2, y2)
            } by {
                lemma_cell_index(w, h, x as int, y as int, x2, y2);
            }
        }
    }

    /// Fills the rectangle between columns `x0` and `x1` (in either order) and
    /// rows `y0` to `y1` with palette entry `ix`; no cell outside it changes.
    pub fn rectfill(&mut self, x0: usize, y0: usize, x1: usize, y1: usize, ix: usize)
        requires
            old(self).wf(),
            old(self).in_grid(x0 as int, y0 as int),
            old(self).in_grid(x1 as int, y1 as int),
            ix < 16,
        ensures
            final(self).wf(),
            final(self).repainted(
                old(self),
                |x: int, y: int| in_box(x0 as int, y0 as int, x1 as int, y1 as int, x, y),
                |x: int, y: int| old(self).colour(ix as int),
            ),
    {
        let (lx, hx) = if x1 < x0 {
            (x1, x0)
        } else {
            (x0, x1)
        };
        let ghost c = old(self).colour(ix as int);
        let mut y: usize = y0;
        while y <= y1
            invariant
                self.wf(),
                lx as int == lo(x0 as int, x1 as int),
                hx as int == hi(x0 as int, x1 as int),
                hx < self.spec_width(),
                y1 < self.spec_height(),
                y0 <= y,
                y <= y1 + 1 || y == y0,
                ix < 16,
                c == old(self).colour(ix as int),
                self.repainted(
                    old(self),
                    |x2: int, y2: int| lx <= x2 <= hx && y0 <= y2 < y,
                    |x2: int, y2: int| c,
                ),
            decreases y1 + 1 - y,
        {
            let mut x: usize = lx;
            while x <= hx
                invariant
                    self.wf(),
                    lx <= x <= hx + 1,
                    hx < self.spec_width(),
                    y <= y1 < self.spec_height(),
                    y0 <= y,
                    ix < 16,
                    c == old(self).colour(ix as int),
                    self.repainted(
                        old(self),
                        |x2: int, y2: int| lx <= x2 <= hx && y0 <= y2 < y || y2 == y && lx <= x2 < x,
                        |x2: int, y2: int| c,
                    ),
                decreases hx + 1 - x,
            {
                self.set(x, y, ix);
                x = x + 1;
            }
            y = y + 1;
        }
    }

    /// Draws the outline of the rectangle between columns `x0` and `x1` (in
    /// either order) and rows `y0` to `y1` with palette entry `ix`: its first
    /// and last rows whole, and on the rows between only its two boundary
    /// columns. No other cell changes.
    pub fn rect(&mut self, x0: usize, y0: usize, x1: usize, y1: usize, ix: usize)
        requires
            old(self).wf(),
            old(self).in_grid(x0 as int, y0 as int),
            old(self).in_grid(x1 as int, y1 as int),
            ix < 16,
        ensures
            final(self).wf(),
            final(self).repainted(
                old(self),
                |x: int, y: int| on_outline(x0 as int, y0 as int, x1 as int, y1 as int, x, y),
                |x: int, y: int| old(self).colour(ix as int),
            ),
    {
        let (lx, hx) = if x1 < x0 {
            (x1, x0)
        } else {
            (x0, x1)
        };
        let ghost c = old(self).colour(ix as int);
        let mut y: usize = y0;
        while y <= y1
            invariant
                self.wf(),
                lx as int == lo(x0 as int, x1 as int),
                hx as int == hi(x0 as int, x1 as int),
                hx < self.spec_width(),
                y1 < self.spec_height(),
                y0 <= y,
                y <= y1 + 1 || y == y0,
                ix < 16,
                c == old(self).colour(ix as int),
                self.repainted(
                    old(self),
                    |x2: int, y2: int|
                        on_outline(x0 as int, y0 as int, x1 as int, y1 as int, x2, y2) && y2 < y,
                    |x2: int, y2: int| c,
                ),
            decreases y1 + 1 - y,
        {
            if y == y0 || y == y1 {
                let mut x: usize = lx;
                while x <= hx
                    invariant
                        self.wf(),
                        lx as int == lo(x0 as int, x1 as int),
                        hx as int == hi(x0 as int, x1 as int),
                        lx <= x <= hx + 1,
                        hx < self.spec_width(),
                        y <= y1 < self.spec_height(),
                        y0 <= y,
                        y == y0 || y == y1,
                        ix < 16,
                        c == old(self).colour(ix as int),
                        self.repainted(
                            old(self),
                            |x2: int, y2: int|
                                on_outline(x0 as int, y0 as int, x1 as int, y1 as int, x2, y2)
                                    && y2 < y || y2 == y && lx <= x2 < x,
                            |x2: int, y2: int| c,
                        ),
                    decreases hx + 1 - x,
                {
                    self.set(x, y, ix);
                    x = x + 1;
                }
            } else {
                self.set(lx, y, ix);
                self.set(hx, y, ix);
            }
            y = y + 1;
        }
    }

    /// Draws the outline that `rect` draws, each of its cells coloured by the
    /// parity of its column: palette entry `a` on even columns, `b` on odd
    /// ones. No other cell changes.
    pub fn rect_alt(&mut self, x0: usize, y0: usize, x1: usize, y1: usize, a: usize, b: usize)
        requires
            old(self).wf(),
            old(self).in_grid(x0 as int, y0 as int),
            old(self).in_grid(x1 as int, y1 as int),
            a < 16,
            b < 16,
        ensures
            final(self).wf(),
            final(self).repainted(
                old(self),
                |x: int, y: int| on_outline(x0 as int, y0 as int, x1 as int, y1 as int, x, y),
                |x: int, y: int| alternate(old(self).colour(a as int), old(self).colour(b as int), x),
            ),
    {
        let (lx, hx) = if x1 < x0 {
            (x1, x0)
        } else {
            (x0, x1)
        };
        let ghost ca = old(self).colour(a as int);
        let ghost cb = old(self).colour(b as int);
        let mut y: usize = y0;
        while y <= y1
            invariant
                self.wf(),
                lx as int == lo(x0 as int, x1 as int),
                hx as int == hi(x0 as int, x1 as int),
                hx < self.spec_width(),
                y1 < self.spec_height(),
                y0 <= y,
                y <= y1 + 1 || y == y0,
                a < 16,
                b < 16,
                ca == old(self).colour(a as int),
                cb == old(self).colour(b as int),
                self.repainted(
                    old(self),
                    |x2: int, y2: int|
                        on_outline(x0 as int, y0 as int, x1 as int, y1 as int, x2, y2) && y2 < y,
                    |x2: int, y2: int| alternate(ca, cb, x2),
                ),
            decreases y1 + 1 - y,
        {
            if y == y0 || y == y1 {
                let mut x: usize = lx;
                while x <= hx
                    invariant
                        self.wf(),
                        lx as int == lo(x0 as int, x1 as int),
                        hx as int == hi(x0 as int, x1 as int),
                        lx <= x <= hx + 1,
                        hx < self.spec_width(),
                        y <= y1 < self.spec_height(),
                        y0 <= y,
                        y == y0 || y == y1,
                        a < 16,
                        b < 16,
                        ca == old(self).colour(a as int),
                        cb == old(self).colour(b as int),
                        self.repainted(
                            old(self),
                            |x2: int, y2: int|
                                on_outline(x0 as int, y0 as int, x1 as int, y1 as int, x2, y2)
                                    && y2 < y || y2 == y && lx <= x2 < x,
                            |x2: int, y2: int| alternate(ca, cb, x2),
                        ),
                    decreases hx + 1 - x,
                {
                    self.set(x, y, Self::parity_pick(x, a, b));
                    x = x + 1;
                }
            } else {
                self.set(lx, y, Self::parity_pick(lx, a, b));
                self.set(hx, y, Self::parity_pick(hx, a, b));
            }
            y = y + 1;
        }
    }

    /// The palette index for column `x`: `a` on even columns, `b` on odd ones.
    fn parity_pick(x: usize, a: usize, b: usize) -> (ix: usize)
        ensures
            ix == if x % 2 == 0 {
                a
            } else {
                b
            },
    {
        if x % 2 == 0 {
            a
        } else {
            b
        }
    }

    /// Writes the grid into `canvas` as packed RGBA bytes, row by row, four
    /// bytes per cell. Where `canvas` is shorter than the grid, only the
    /// cells that fit whole are written; bytes past the last one written are
    /// left as they were.
    pub fn draw(&self, canvas: &mut [u8])
        ensures
            blitted(self.spec_cells(), old(canvas)@, final(canvas)@),
    {
        let len = canvas.len();
        let n: usize = if self.cells.len() < len / 4 {
            self.cells.len()
        } else {
            len / 4
        };
        let mut p: usize = 0;
        while p < n
            invariant
                n == blit_count(self.cells@, old(canvas)@.len() as int),
                4 * n <= len,
                n <= self.cells@.len(),
                p <= n,
                canvas@.len() == len,
                len == old(canvas)@.len(),
                forall|i: int|
                    0 <= i < 4 * p ==> #[trigger] canvas@[i] == channel(self.cells@[i / 4], i % 4),
                forall|i: int| 4 * p <= i < len ==> #[trigger] canvas@[i] == old(canvas)@[i],
            decreases n - p,
        {
            let c = self.cells[p];
            let k: usize = 4 * p;
            canvas[k] = c.r;
            canvas[k + 1] = c.g;
            canvas[k + 2] = c.b;
            canvas[k + 3] = 255;
            p = p + 1;
        }
    }

    /// The number of columns.
    pub fn width(&self) -> (w: usize)
        ensures
            w == self.spec_width(),
    {
        self.width
    }

    /// The number of rows.
    pub fn height(&self) -> (h: usize)
        ensures
            h == self.spec_height(),
    {
        self.height
    }
}

} // verus!
