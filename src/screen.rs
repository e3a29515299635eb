use vstd::prelude::*;

use crate::cell::{Dimensions, Point, TetrisCellColor};
use crate::figure::{lemma_bitmap_fits_box, Figure};

verus! {

/// Number of columns of the board.
pub const CELL_COUNT_X: usize = 10;

/// Number of rows of the board.
pub const CELL_COUNT_Y: usize = 16;

/// Side of one cell on screen, in layout units.
pub const CELL_SIZE: usize = 40;

/// Gap kept free on each side of a painted cell, in layout units.
pub const CELL_SPACING: usize = 2;

/// Margin around the board, in layout units.
pub const GLOBAL_OFFSET: usize = 10;

/// Position of the cell at column `x`, row `y` in the row-major grid.
pub open spec fn cell_index(x: int, y: int) -> int {
    y * CELL_COUNT_X + x
}

/// Whether a piece anchored at `p` lies entirely inside the board.
pub open spec fn piece_in_bounds(p: Point, f: Figure) -> bool {
    &&& p.0 + f.spec_dimensions().0 <= CELL_COUNT_X
    &&& p.1 + f.spec_dimensions().1 <= CELL_COUNT_Y
}

/// Whether some cell of piece `f` anchored at `p` lands on a locked cell.
pub open spec fn overlaps(cells: Seq<Option<TetrisCellColor>>, p: Point, f: Figure) -> bool {
    exists|x: int, y: int|
        #![trigger f.occupies(x, y), cells[cell_index(p.0 + x, p.1 + y)]]
        f.occupies(x, y) && cells[cell_index(p.0 + x, p.1 + y)] is Some
}

/// The overlay of piece `f` painted in `c`: opaque where the piece is, empty elsewhere.
pub open spec fn layer_of(c: TetrisCellColor, f: Figure) -> Seq<Option<TetrisCellColor>> {
    Seq::new(
        f.spec_bitmap().len(),
        |i: int|
            if f.spec_bitmap()[i] {
                Some(c)
            } else {
                None
            },
    )
}

/// A grid with no locked cell.
pub open spec fn empty_cells() -> Seq<Option<TetrisCellColor>> {
    Seq::new((CELL_COUNT_X * CELL_COUNT_Y) as nat, |i: int| None)
}

/// The cells of row `r`.
pub open spec fn row_of(cells: Seq<Option<TetrisCellColor>>, r: int) -> Seq<Option<TetrisCellColor>> {
    cells.subrange(r * CELL_COUNT_X, r * CELL_COUNT_X + CELL_COUNT_X)
}

/// Whether every cell of row `r` is locked.
pub open spec fn row_full(cells: Seq<Option<TetrisCellColor>>, r: int) -> bool {
    forall|i: int| 0 <= i < CELL_COUNT_X ==> (#[trigger] cells[r * CELL_COUNT_X + i]) is Some
}

/// How many of the first `n` rows are full.
pub open spec fn full_row_count(cells: Seq<Option<TetrisCellColor>>, n: nat) -> nat
    decreases n,
{
    if n == 0 {
        0
    } else {
        full_row_count(cells, (n - 1) as nat) + if row_full(cells, n - 1) {
            1nat
        } else {
            0nat
        }
    }
}

/// The rows among the first `n` that are not full, in their order, one after the other.
pub open spec fn kept_rows(cells: Seq<Option<TetrisCellColor>>, n: nat) -> Seq<Option<TetrisCellColor>>
    decreases n,
{
    if n == 0 {
        Seq::empty()
    } else if row_full(cells, n - 1) {
        kept_rows(cells, (n - 1) as nat)
    } else {
        kept_rows(cells, (n - 1) as nat) + row_of(cells, n - 1)
    }
}

/// The grid after line clearing: every full row is gone, the rows that stay
/// keep their order and sink to the bottom, and as many empty rows as were
/// removed fill the top.
pub open spec fn cleared(cells: Seq<Option<TetrisCellColor>>) -> Seq<Option<TetrisCellColor>> {
    Seq::new((full_row_count(cells, CELL_COUNT_Y as nat) * CELL_COUNT_X) as nat, |i: int| None)
        + kept_rows(cells, CELL_COUNT_Y as nat)
}

/// The kept rows of the first `n` rows take up exactly the cells of the rows that are not full.
pub proof fn lemma_kept_rows_len(cells: Seq<Option<TetrisCellColor>>, n: nat)
    requires
        cells.len() == CELL_COUNT_X * CELL_COUNT_Y,
        n <= CELL_COUNT_Y,
    ensures
        full_row_count(cells, n) <= n,
        kept_rows(cells, n).len() == (n - full_row_count(cells, n)) * CELL_COUNT_X,
    decreases n,
{
    if n > 0 {
        lemma_kept_rows_len(cells, (n - 1) as nat);
        let m = (n - 1) as int;
        assert(m * CELL_COUNT_X + CELL_COUNT_X <= cells.len()) by (nonlinear_arith)
            requires
                m < CELL_COUNT_Y,
                cells.len() == CELL_COUNT_X * CELL_COUNT_Y,
        ;
        let c = full_row_count(cells, (n - 1) as nat) as int;
        assert((m - c) * CELL_COUNT_X + CELL_COUNT_X == (n - c) * CELL_COUNT_X) by (nonlinear_arith)
            requires
                m == n - 1,
        ;
    }
}

/// Without full rows among the first `n`, the kept rows are those rows unchanged.
proof fn lemma_kept_rows_identity(cells: Seq<Option<TetrisCellColor>>, n: nat)
    requires
        cells.len() == CELL_COUNT_X * CELL_COUNT_Y,
        n <= CELL_COUNT_Y,
        full_row_count(cells, n) == 0,
    ensures
        kept_rows(cells, n) == cells.subrange(0, n * CELL_COUNT_X),
    decreases n,
{
    if n > 0 {
        lemma_kept_rows_identity(cells, (n - 1) as nat);
        let m = (n - 1) as int;
        assert(m * CELL_COUNT_X + CELL_COUNT_X == n * CELL_COUNT_X) by (nonlinear_arith)
            requires
                m == n - 1,
        ;
        assert(n * CELL_COUNT_X <= cells.len()) by (nonlinear_arith)
            requires
                n <= CELL_COUNT_Y,
                cells.len() == CELL_COUNT_X * CELL_COUNT_Y,
        ;
        assert(kept_rows(cells, n) =~= cells.subrange(0, n * CELL_COUNT_X));
    } else {
        assert(kept_rows(cells, n) =~= cells.subrange(0, n * CELL_COUNT_X));
    }
}

/// Clearing a board on which no row is full leaves every cell as it was.
pub proof fn lemma_clear_without_full_rows(cells: Seq<Option<TetrisCellColor>>)
    requires
        cells.len() == CELL_COUNT_X * CELL_COUNT_Y,
        forall|r: int| 0 <= r < CELL_COUNT_Y ==> !row_full(cells, r),
    ensures
        cleared(cells) == cells,
{
    lemma_no_full_row_counts_zero(cells, CELL_COUNT_Y as nat);
    lemma_kept_rows_identity(cells, CELL_COUNT_Y as nat);
    assert(cleared(cells) =~= cells);
}

/// A full row among the first `n` makes the count positive.
proof fn lemma_full_row_counted(cells: Seq<Option<TetrisCellColor>>, r: nat, n: nat)
    requires
        r < n,
        row_full(cells, r as int),
    ensures
        full_row_count(cells, n) > 0,
    decreases n,
{
    if r < n - 1 {
        lemma_full_row_counted(cells, r, (n - 1) as nat);
    }
}

proof fn lemma_no_full_row_counts_zero(cells: Seq<Option<TetrisCellColor>>, n: nat)
    requires
        n <= CELL_COUNT_Y,
        forall|r: int| 0 <= r < CELL_COUNT_Y ==> !row_full(cells, r),
    ensures
        full_row_count(cells, n) == 0,
    decreases n,
{
    if n > 0 {
        lemma_no_full_row_counts_zero(cells, (n - 1) as nat);
    }
}

/// The cleared grid has the size of the board.
pub proof fn lemma_cleared_len(cells: Seq<Option<TetrisCellColor>>)
    requires
        cells.len() == CELL_COUNT_X * CELL_COUNT_Y,
    ensures
        cleared(cells).len() == CELL_COUNT_X * CELL_COUNT_Y,
{
    lemma_kept_rows_len(cells, CELL_COUNT_Y as nat);
    let c = full_row_count(cells, CELL_COUNT_Y as nat) as int;
    assert(c * CELL_COUNT_X + (CELL_COUNT_Y - c) * CELL_COUNT_X == CELL_COUNT_X * CELL_COUNT_Y)
        by (nonlinear_arith);
}

/// No row among the kept rows of the first `n` is full.
proof fn lemma_kept_rows_not_full(cells: Seq<Option<TetrisCellColor>>, n: nat)
    requires
        cells.len() == CELL_COUNT_X * CELL_COUNT_Y,
        n <= CELL_COUNT_Y,
    ensures
        forall|j: int|
            0 <= j < n - full_row_count(cells, n) ==> !row_full(#[trigger] kept_rows(cells, n), j),
    decreases n,
{
    lemma_kept_rows_len(cells, n);
    if n > 0 {
        let m = (n - 1) as nat;
        lemma_kept_rows_not_full(cells, m);
        lemma_kept_rows_len(cells, m);
        let prev = kept_rows(cells, m);
        let k = m - full_row_count(cells, m);
        if !row_full(cells, m as int) {
            let cur = kept_rows(cells, n);
            assert(cur == prev + row_of(cells, m as int));
            assert forall|j: int| 0 <= j < k + 1 implies !row_full(cur, j) by {
                if j < k {
                    assert(!row_full(prev, j));
                    let i = choose|i: int| 0 <= i < CELL_COUNT_X && !((#[trigger] prev[j * CELL_COUNT_X + i]) is Some);
                    assert(j * CELL_COUNT_X + i < k * CELL_COUNT_X) by (nonlinear_arith)
                        requires
                            j < k,
                            0 <= i < CELL_COUNT_X,
                    ;
                    assert(cur[j * CELL_COUNT_X + i] == prev[j * CELL_COUNT_X + i]);
                } else {
                    let i = choose|i: int| 0 <= i < CELL_COUNT_X && !((#[trigger] cells[m * CELL_COUNT_X + i]) is Some);
                    assert(m * CELL_COUNT_X + CELL_COUNT_X <= cells.len()) by (nonlinear_arith)
                        requires
                            m < CELL_COUNT_Y,
                            cells.len() == CELL_COUNT_X * CELL_COUNT_Y,
                    ;
                    assert(j * CELL_COUNT_X + i == k * CELL_COUNT_X + i);
                    assert(cur[j * CELL_COUNT_X + i] == cells[m * CELL_COUNT_X + i]);
                }
            }
        }
    }
}

/// After clearing, no row of the grid is full: every full row was removed at once.
pub proof fn lemma_cleared_has_no_full_row(cells: Seq<Option<TetrisCellColor>>)
    requires
        cells.len() == CELL_COUNT_X * CELL_COUNT_Y,
    ensures
        forall|r: int| 0 <= r < CELL_COUNT_Y ==> !row_full(cleared(cells), r),
{
    let n = CELL_COUNT_Y as nat;
    lemma_kept_rows_len(cells, n);
    lemma_kept_rows_not_full(cells, n);
    let c = full_row_count(cells, n) as int;
    let top = Seq::new((c * CELL_COUNT_X) as nat, |i: int| None::<TetrisCellColor>);
    let kept = kept_rows(cells, n);
    let out = cleared(cells);
    assert(out == top + kept);
    assert forall|r: int| 0 <= r < CELL_COUNT_Y implies !row_full(out, r) by {
        if r < c {
            assert(r * CELL_COUNT_X < c * CELL_COUNT_X) by (nonlinear_arith)
                requires
                    0 <= r < c,
            ;
            assert(out[r * CELL_COUNT_X + 0] is None);
        } else {
            let j = r - c;
            assert(!row_full(kept, j));
            let i = choose|i: int| 0 <= i < CELL_COUNT_X && !((#[trigger] kept[j * CELL_COUNT_X + i]) is Some);
            assert(r * CELL_COUNT_X + i == c * CELL_COUNT_X + j * CELL_COUNT_X + i) by (nonlinear_arith)
                requires
                    j == r - c,
            ;
            assert(j * CELL_COUNT_X + i < kept.len()) by (nonlinear_arith)
                requires
                    0 <= j < n - c,
                    0 <= i < CELL_COUNT_X,
                    kept.len() == (n - c) * CELL_COUNT_X,
            ;
            assert(out[r * CELL_COUNT_X + i] == kept[j * CELL_COUNT_X + i]);
        }
    }
}

/// The fixed-size grid of locked cells, plus the active piece drawn over it.
pub struct TetrisCellScreen {
    cells: Vec<Option<TetrisCellColor>>,
    dim: Dimensions,
    figure: Option<(Point, TetrisCellColor, Figure)>,
    figure_layer: Vec<Option<TetrisCellColor>>,
}

impl TetrisCellScreen {
    /// The locked cells, row by row from the top.
    pub closed spec fn cells_view(&self) -> Seq<Option<TetrisCellColor>> {
        self.cells@
    }

    /// The active piece: its anchor, its color and its variant.
    pub closed spec fn active(&self) -> Option<(Point, TetrisCellColor, Figure)> {
        self.figure
    }

    /// The stored size and the cached overlay agree with the board and the active piece.
    pub closed spec fn layout_coherent(&self) -> bool {
        &&& self.dim == Dimensions(CELL_COUNT_X, CELL_COUNT_Y)
        &&& self.figure matches Some((p, c, f)) ==> self.figure_layer@ == layer_of(c, f)
    }

    pub open spec fn wf(&self) -> bool {
        &&& self.cells_view().len() == CELL_COUNT_X * CELL_COUNT_Y
        &&& self.layout_coherent()
        &&& self.active() matches Some((p, c, f)) ==> piece_in_bounds(p, f)
    }

    pub fn new() -> (r: Self)
        ensures
            r.wf(),
            r.cells_view() == empty_cells(),
            r.active() is None,
    {
        let mut cells: Vec<Option<TetrisCellColor>> = Vec::new();
        let mut i: usize = 0;
        while i < CELL_COUNT_X * CELL_COUNT_Y
            invariant
                i <= CELL_COUNT_X * CELL_COUNT_Y,
                cells@ == Seq::new(i as nat, |k: int| None::<TetrisCellColor>),
            decreases CELL_COUNT_X * CELL_COUNT_Y - i,
        {
            cells.push(None);
            i = i + 1;
            proof {
                assert(cells@ =~= Seq::new(i as nat, |k: int| None::<TetrisCellColor>));
            }
        }
        proof {
            assert(cells@ =~= empty_cells());
        }
        TetrisCellScreen {
            cells,
            dim: Dimensions(CELL_COUNT_X, CELL_COUNT_Y),
            figure: None,
            figure_layer: Vec::new(),
        }
    }

    pub fn has_figure(&self) -> (r: bool)
        ensures
            r == self.active() is Some,
    {
        self.figure.is_some()
    }

    pub fn get_figure(&self) -> (r: Option<(Point, TetrisCellColor, Figure)>)
        ensures
            r == self.active(),
    {
        self.figure
    }

    /// Installs or replaces the active piece. The overlay is rebuilt only
    /// when the color or the variant changes.
    pub fn set_figure(&mut self, point: Point, color: TetrisCellColor, figure: Figure)
        requires
            old(self).wf(),
            piece_in_bounds(point, figure),
        ensures
            final(self).wf(),
            final(self).cells_view() == old(self).cells_view(),
            final(self).active() == Some((point, color, figure)),
    {
        let unchanged = match self.figure {
            Some((_, old_color, old_figure)) => old_color == color && old_figure == figure,
            None => false,
        };
        if !unchanged {
            let bitmap = figure.bitmap();
            self.figure_layer.clear();
            let mut i: usize = 0;
            while i < bitmap.len()
                invariant
                    i <= bitmap@.len(),
                    bitmap@ == figure.spec_bitmap(),
                    self.cells@ == old(self).cells@,
                    self.dim == old(self).dim,
                    self.figure_layer@ == layer_of(color, figure).subrange(0, i as int),
                decreases bitmap@.len() - i,
            {
                self.figure_layer.push(
                    if bitmap[i] {
                        Some(color)
                    } else {
                        None
                    },
                );
                i = i + 1;
                proof {
                    assert(self.figure_layer@ =~= layer_of(color, figure).subrange(0, i as int));
                }
            }
            proof {
                assert(self.figure_layer@ =~= layer_of(color, figure));
            }
        }
        self.figure = Some((point, color, figure));
    }

    /// Removes the active piece; the locked cells stay as they are.
    pub fn remove_figure(&mut self)
        requires
            old(self).wf(),
        ensures
            final(self).wf(),
            final(self).cells_view() == old(self).cells_view(),
            final(self).active() is None,
    {
        self.figure = None;
    }

    /// Clears every cell and removes the active piece.
    pub fn reset(&mut self)
        requires
            old(self).wf(),
        ensures
            final(self).wf(),
            final(self).cells_view() == empty_cells(),
            final(self).active() is None,
    {
        let mut i: usize = 0;
        while i < self.cells.len()
            invariant
                self.wf(),
                i <= self.cells@.len(),
                forall|k: int| 0 <= k < i ==> self.cells@[k] is None,
            decreases self.cells@.len() - i,
        {
            self.cells.set(i, None);
            i = i + 1;
        }
        self.figure = None;
        proof {
            assert(self.cells@ =~= empty_cells());
        }
    }

    /// Writes one cell, which must lie on the board.
    pub fn set_cell(&mut self, point: Point, cell: Option<TetrisCellColor>)
        requires
            old(self).wf(),
            point.0 < CELL_COUNT_X,
            point.1 < CELL_COUNT_Y,
        ensures
            final(self).wf(),
            final(self).cells_view() == old(self).cells_view().update(
                cell_index(point.0 as int, point.1 as int),
                cell,
            ),
            final(self).active() == old(self).active(),
    {
        let dim = self.dimensions();
        self.cells.set(point.1 * dim.0 + point.0, cell);
    }

    pub fn dimensions(&self) -> (r: Dimensions)
        requires
            self.wf(),
        ensures
            r == Dimensions(CELL_COUNT_X, CELL_COUNT_Y),
    {
        self.dim
    }

    /// The locked cells, row by row from the top.
    pub fn cells(&self) -> (r: &[Option<TetrisCellColor>])
        ensures
            r@ == self.cells_view(),
    {
        self.cells.as_slice()
    }

    /// The active piece's overlay, row by row over its bounding box.
    pub fn figure_layer(&self) -> (r: &[Option<TetrisCellColor>])
        requires
            self.wf(),
            self.active() is Some,
        ensures
            self.active() matches Some((p, c, f)) ==> r@ == layer_of(c, f),
    {
        self.figure_layer.as_slice()
    }

    /// Removes every full row at once; the rows above each removed row drop
    /// by the number of removed rows below them, and empty rows enter at the top.
    pub fn remove_filled_lines(&mut self)
        requires
            old(self).wf(),
        ensures
            final(self).wf(),
            final(self).cells_view() == cleared(old(self).cells_view()),
            final(self).active() == old(self).active(),
            (forall|r: int| 0 <= r < CELL_COUNT_Y ==> !row_full(old(self).cells_view(), r))
                ==> final(self).cells_view() == old(self).cells_view(),
    {
        let w = CELL_COUNT_X;
        let h = CELL_COUNT_Y;
        let ghost cells = self.cells@;
        proof {
            if forall|r: int| 0 <= r < CELL_COUNT_Y ==> !row_full(cells, r) {
                lemma_clear_without_full_rows(cells);
            }
        }
        let mut filled: Vec<bool> = Vec::with_capacity(h);
        let mut count: usize = 0;
        let mut r: usize = 0;
        while r < h
            invariant
                cells == self.cells@,
                cells.len() == w * h,
                w == CELL_COUNT_X,
                h == CELL_COUNT_Y,
                r <= h,
                filled@.len() == r,
                forall|k: int| 0 <= k < r ==> filled@[k] == row_full(cells, k),
                count == full_row_count(cells, r as nat),
                count <= r,
            decreases h - r,
        {
            let mut full = true;
            let mut i: usize = 0;
            while i < w
                invariant
                    cells == self.cells@,
                    cells.len() == w * h,
                    w == CELL_COUNT_X,
                    h == CELL_COUNT_Y,
                    r < h,
                    i <= w,
                    full == forall|j: int| 0 <= j < i ==> (#[trigger] cells[r * CELL_COUNT_X + j]) is Some,
                decreases w - i,
            {
                assert(r * w + i < w * h) by (nonlinear_arith)
                    requires
                        r < h,
                        i < w,
                ;
                if self.cells[r * w + i].is_none() {
                    full = false;
                }
                i = i + 1;
            }
            filled.push(full);
            if full {
                count = count + 1;
            }
            r = r + 1;
        }
        if count == 0 {
            proof {
                assert forall|k: int| 0 <= k < CELL_COUNT_Y implies !row_full(cells, k) by {
                    if row_full(cells, k) {
                        lemma_full_row_counted(cells, k as nat, CELL_COUNT_Y as nat);
                    }
                }
                lemma_clear_without_full_rows(cells);
            }
            return;
        }
        let mut out: Vec<Option<TetrisCellColor>> = Vec::with_capacity(w * h);
        let ghost top = Seq::new((count * CELL_COUNT_X) as nat, |i: int| None::<TetrisCellColor>);
        let mut k: usize = 0;
        while k < count * w
            invariant
                count <= h,
                w == CELL_COUNT_X,
                h == CELL_COUNT_Y,
                k <= count * w,
                top == Seq::new((count * CELL_COUNT_X) as nat, |i: int| None::<TetrisCellColor>),
                out@ == top.subrange(0, k as int),
            decreases count * w - k,
        {
            out.push(None);
            k = k + 1;
            proof {
                assert(out@ =~= top.subrange(0, k as int));
            }
        }
        proof {
            assert(out@ =~= top);
        }
        r = 0;
        while r < h
            invariant
                cells == self.cells@,
                self.wf(),
                cells.len() == w * h,
                w == CELL_COUNT_X,
                h == CELL_COUNT_Y,
                r <= h,
                filled@.len() == h,
                forall|k: int| 0 <= k < h ==> filled@[k] == row_full(cells, k),
                count == full_row_count(cells, h as nat),
                out@ == top + kept_rows(cells, r as nat),
            decreases h - r,
        {
            if !filled[r] {
                let ghost before = out@;
                let mut i: usize = 0;
                while i < w
                    invariant
                        cells == self.cells@,
                        cells.len() == w * h,
                        w == CELL_COUNT_X,
                        h == CELL_COUNT_Y,
                        r < h,
                        i <= w,
                        out@ == before + row_of(cells, r as int).subrange(0, i as int),
                    decreases w - i,
                {
                    assert(r * w + i < w * h) by (nonlinear_arith)
                        requires
                            r < h,
                            i < w,
                    ;
                    out.push(self.cells[r * w + i]);
                    i = i + 1;
                    proof {
                        assert(out@ =~= before + row_of(cells, r as int).subrange(0, i as int));
                    }
                }
                proof {
                    assert(row_of(cells, r as int).subrange(0, w as int) =~= row_of(cells, r as int));
                    assert(out@ =~= top + kept_rows(cells, (r + 1) as nat));
                }
            } else {
                proof {
                    assert(out@ =~= top + kept_rows(cells, (r + 1) as nat));
                }
            }
            r = r + 1;
        }
        proof {
            lemma_cleared_len(cells);
        }
        self.cells = out;
    }

    /// What a renderer paints, bottom layer first: the whole grid of locked
    /// cells, then the active piece's overlay over its bounding box.
    pub fn layers(&self) -> (r: Vec<(Point, Dimensions, &[Option<TetrisCellColor>])>)
        requires
            self.wf(),
        ensures
            r@.len() == if self.active() is Some {
                2int
            } else {
                1int
            },
            r@[0].0 == Point(0, 0),
            r@[0].1 == Dimensions(CELL_COUNT_X, CELL_COUNT_Y),
            r@[0].2@ == self.cells_view(),
            self.active() matches Some((p, c, f)) ==> {
                &&& r@[1].0 == p
                &&& r@[1].1 == f.spec_dimensions()
                &&& r@[1].2@ == layer_of(c, f)
            },
    {
        let mut layers: Vec<(Point, Dimensions, &[Option<TetrisCellColor>])> = Vec::with_capacity(2);
        layers.push((Point(0, 0), self.dim, self.cells.as_slice()));
        match self.figure {
            Some((point, _, figure)) => {
                layers.push((point, figure.dimensions(), self.figure_layer.as_slice()));
            },
            None => {},
        }
        layers
    }

    /// Size of one cell on screen, in layout units.
    pub fn cell_size(&self) -> (r: Dimensions)
        ensures
            r == Dimensions(CELL_SIZE, CELL_SIZE),
    {
        Dimensions(CELL_SIZE, CELL_SIZE)
    }

    /// Gap kept free on each side of a painted cell.
    pub fn cell_spacing(&self) -> (r: Dimensions)
        ensures
            r == Dimensions(CELL_SPACING, CELL_SPACING),
    {
        Dimensions(CELL_SPACING, CELL_SPACING)
    }

    /// Margin between the window's edge and the board.
    pub fn global_offset(&self) -> (r: Dimensions)
        ensures
            r == Dimensions(GLOBAL_OFFSET, GLOBAL_OFFSET),
    {
        Dimensions(GLOBAL_OFFSET, GLOBAL_OFFSET)
    }

    /// The window that holds the board and its margin on both sides.
    pub fn window_size(&self) -> (r: Dimensions)
        requires
            self.wf(),
        ensures
            r == Dimensions(
                (2 * GLOBAL_OFFSET + CELL_SIZE * CELL_COUNT_X) as usize,
                (2 * GLOBAL_OFFSET + CELL_SIZE * CELL_COUNT_Y) as usize,
            ),
    {
        let off = self.global_offset();
        let cs = self.cell_size();
        let dim = self.dimensions();
        Dimensions(off.0 * 2 + cs.0 * dim.0, off.1 * 2 + cs.1 * dim.1)
    }

    /// The rectangle (left, top, width, height) that the cell at column `x`,
    /// row `y` is painted in: its slot on the grid less the spacing on each side.
    pub fn cell_rect(&self, x: usize, y: usize) -> (r: (usize, usize, usize, usize))
        requires
            x < CELL_COUNT_X,
            y < CELL_COUNT_Y,
        ensures
            r.0 == GLOBAL_OFFSET + x * CELL_SIZE + CELL_SPACING,
            r.1 == GLOBAL_OFFSET + y * CELL_SIZE + CELL_SPACING,
            r.2 == CELL_SIZE - 2 * CELL_SPACING,
            r.3 == CELL_SIZE - 2 * CELL_SPACING,
    {
        let off = self.global_offset();
        let cs = self.cell_size();
        let sp = self.cell_spacing();
        (off.0 + x * cs.0 + sp.0, off.1 + y * cs.1 + sp.1, cs.0 - sp.0 * 2, cs.1 - sp.1 * 2)
    }
}

} // verus!
