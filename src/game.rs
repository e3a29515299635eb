use vstd::prelude::*;

use crate::cell::{Point, TetrisCellColor};
use crate::figure::{lemma_bitmap_fits_box, Figure};
use crate::screen::{
    cell_index, cleared, overlaps, piece_in_bounds, row_full, TetrisCellScreen, CELL_COUNT_X, CELL_COUNT_Y,
};
use rand::rngs::StdRng;

verus! {

/// The active piece: anchor, color and variant.
pub type ActivePiece = (Point, TetrisCellColor, Figure);

/// The discrete inputs the engine reacts to.
#[derive(Clone, Copy, Debug, PartialEq, Eq, Structural)]
pub enum GameInputEvent {
    RotateClockwise,
    MoveLeft,
    MoveRight,
    /// Hard drop: the piece falls as far as it can and locks.
    MoveDown,
    /// Gravity tick: the piece falls one row, or locks where it is.
    Timer,
}

/// Whether the active piece, if any, lies on no locked cell.
pub open spec fn no_overlap(cells: Seq<Option<TetrisCellColor>>, a: Option<ActivePiece>) -> bool {
    a matches Some((p, c, f)) ==> !overlaps(cells, p, f)
}

/// Whether the grid cell at `i` lies under an occupied cell of piece `f` anchored at `p`.
pub open spec fn piece_covers(p: Point, f: Figure, i: int) -> bool {
    f.occupies(i % (CELL_COUNT_X as int) - p.0, i / (CELL_COUNT_X as int) - p.1)
}

/// The grid after piece `f` in color `c` locks at `p`: its occupied cells
/// become `c`, every other cell keeps its content.
pub open spec fn merged(
    cells: Seq<Option<TetrisCellColor>>,
    p: Point,
    c: TetrisCellColor,
    f: Figure,
) -> Seq<Option<TetrisCellColor>> {
    Seq::new(
        cells.len(),
        |i: int|
            if piece_covers(p, f, i) {
                Some(c)
            } else {
                cells[i]
            },
    )
}

/// Where a new piece of variant `f` appears: its spawn offset from the top center.
pub open spec fn spawn_point(f: Figure) -> Point {
    Point(
        (CELL_COUNT_X as int / 2 + f.spec_offset_from_top_center().0) as usize,
        f.spec_offset_from_top_center().1 as usize,
    )
}

/// Whether the piece anchored at `p` can fall by one row.
pub open spec fn can_descend(cells: Seq<Option<TetrisCellColor>>, p: Point, f: Figure) -> bool {
    &&& p.1 + f.spec_dimensions().1 < CELL_COUNT_Y
    &&& !overlaps(cells, Point(p.0, (p.1 + 1) as usize), f)
}

/// The row the anchor reaches when the piece anchored at `p` falls as far as it can.
pub open spec fn landing_row(cells: Seq<Option<TetrisCellColor>>, p: Point, f: Figure) -> int
    decreases CELL_COUNT_Y - p.1,
{
    if can_descend(cells, p, f) && p.1 < CELL_COUNT_Y {
        landing_row(cells, Point(p.0, (p.1 + 1) as usize), f)
    } else {
        p.1 as int
    }
}

/// The active piece after a move one column to the left: moved if the
/// column exists and the cells there are free, unchanged otherwise.
pub open spec fn after_move_left(cells: Seq<Option<TetrisCellColor>>, a: Option<ActivePiece>) -> Option<ActivePiece> {
    match a {
        Some((p, c, f)) => if p.0 > 0 && !overlaps(cells, Point((p.0 - 1) as usize, p.1), f) {
            Some((Point((p.0 - 1) as usize, p.1), c, f))
        } else {
            a
        },
        None => None,
    }
}

/// The active piece after a move one column to the right, on the same terms.
pub open spec fn after_move_right(cells: Seq<Option<TetrisCellColor>>, a: Option<ActivePiece>) -> Option<ActivePiece> {
    match a {
        Some((p, c, f)) => if p.0 + f.spec_dimensions().0 < CELL_COUNT_X && !overlaps(
            cells,
            Point((p.0 + 1) as usize, p.1),
            f,
        ) {
            Some((Point((p.0 + 1) as usize, p.1), c, f))
        } else {
            a
        },
        None => None,
    }
}

/// `v` brought into `[0, hi]`.
pub open spec fn clamp_coord(v: int, hi: int) -> int {
    if v < 0 {
        0
    } else if v > hi {
        hi
    } else {
        v
    }
}

/// Where the anchor of the clockwise successor of `f`, anchored at `p`,
/// goes: the successor's correction applied, then pushed back onto the board.
pub open spec fn rotation_point(p: Point, f: Figure) -> Point {
    let (off, g) = f.spec_rotate_clockwise();
    Point(
        clamp_coord(p.0 + off.0, CELL_COUNT_X - g.spec_dimensions().0) as usize,
        clamp_coord(p.1 + off.1, CELL_COUNT_Y - g.spec_dimensions().1) as usize,
    )
}

/// The active piece after a clockwise rotation: the successor at its
/// rotation point if the cells there are free, unchanged otherwise.
pub open spec fn after_rotate(cells: Seq<Option<TetrisCellColor>>, a: Option<ActivePiece>) -> Option<ActivePiece> {
    match a {
        Some((p, c, f)) => if !overlaps(cells, rotation_point(p, f), f.spec_rotated()) {
            Some((rotation_point(p, f), c, f.spec_rotated()))
        } else {
            a
        },
        None => None,
    }
}

/// The grid once the active piece, if any, has locked where it is.
pub open spec fn after_lock(cells: Seq<Option<TetrisCellColor>>, a: Option<ActivePiece>) -> Seq<Option<TetrisCellColor>> {
    match a {
        Some((p, c, f)) => merged(cells, p, c, f),
        None => cells,
    }
}

/// The grid once the active piece, if any, has fallen as far as it can and locked.
pub open spec fn after_hard_drop(cells: Seq<Option<TetrisCellColor>>, a: Option<ActivePiece>) -> Seq<Option<TetrisCellColor>> {
    match a {
        Some((p, c, f)) => merged(cells, Point(p.0, landing_row(cells, p, f) as usize), c, f),
        None => cells,
    }
}

/// Whether the active piece, if any, can fall by one row.
pub open spec fn falls(cells: Seq<Option<TetrisCellColor>>, a: Option<ActivePiece>) -> bool {
    a matches Some((p, c, f)) && can_descend(cells, p, f)
}

/// The active piece one row lower.
pub open spec fn after_fall(a: Option<ActivePiece>) -> Option<ActivePiece> {
    match a {
        Some((p, c, f)) => Some((Point(p.0, (p.1 + 1) as usize), c, f)),
        None => None,
    }
}

/// The row of the active piece's anchor; the board's height when there is none.
pub open spec fn anchor_row(a: Option<ActivePiece>) -> int {
    match a {
        Some((p, c, f)) => p.1 as int,
        None => CELL_COUNT_Y as int,
    }
}

/// What one input does to the grid and the active piece, and whether the
/// piece locked so that lines are cleared and a new piece is due.
pub open spec fn input_outcome(
    cells: Seq<Option<TetrisCellColor>>,
    a: Option<ActivePiece>,
    event: GameInputEvent,
) -> (Seq<Option<TetrisCellColor>>, Option<ActivePiece>, bool) {
    match event {
        GameInputEvent::MoveLeft => (cells, after_move_left(cells, a), false),
        GameInputEvent::MoveRight => (cells, after_move_right(cells, a), false),
        GameInputEvent::RotateClockwise => (cells, after_rotate(cells, a), false),
        GameInputEvent::Timer => if falls(cells, a) {
            (cells, after_fall(a), false)
        } else {
            (after_lock(cells, a), None, true)
        },
        GameInputEvent::MoveDown => (after_hard_drop(cells, a), None, true),
    }
}

/// Every variant fits on the board at its spawn point.
pub proof fn lemma_spawn_in_bounds(f: Figure)
    ensures
        piece_in_bounds(spawn_point(f), f),
        spawn_point(f).1 == 0,
{
}

/// No piece inside the board lies on a locked cell of an empty grid.
proof fn lemma_empty_has_no_overlap(cells: Seq<Option<TetrisCellColor>>, p: Point, f: Figure)
    requires
        cells.len() == CELL_COUNT_X * CELL_COUNT_Y,
        forall|i: int| 0 <= i < cells.len() ==> cells[i] is None,
        piece_in_bounds(p, f),
    ensures
        !overlaps(cells, p, f),
{
    assert forall|x: int, y: int| #[trigger] f.occupies(x, y) implies cells[cell_index(
        p.0 + x,
        p.1 + y,
    )] is None by {
        let i = cell_index(p.0 + x, p.1 + y);
        assert(0 <= i < CELL_COUNT_X * CELL_COUNT_Y) by (nonlinear_arith)
            requires
                i == (p.1 + y) * CELL_COUNT_X + (p.0 + x),
                0 <= x,
                0 <= y,
                p.0 + x < CELL_COUNT_X,
                p.1 + y < CELL_COUNT_Y,
        ;
    }
}

/// Whether the active piece, if any, lies inside the board.
pub open spec fn active_in_bounds(a: Option<ActivePiece>) -> bool {
    a matches Some((p, c, f)) ==> piece_in_bounds(p, f)
}

/// Every input keeps the board's invariants: when the active piece lies
/// inside the board and on no locked cell before an input, the same holds
/// of the piece and the grid after it, and the grid keeps its size.
pub proof fn lemma_input_keeps_invariants(
    cells: Seq<Option<TetrisCellColor>>,
    a: Option<ActivePiece>,
    event: GameInputEvent,
)
    requires
        cells.len() == CELL_COUNT_X * CELL_COUNT_Y,
        active_in_bounds(a),
        no_overlap(cells, a),
    ensures
        ({
            let (cells1, a1, locked) = input_outcome(cells, a, event);
            &&& cells1.len() == cells.len()
            &&& active_in_bounds(a1)
            &&& no_overlap(cells1, a1)
            &&& locked ==> a1 is None
        }),
{
    if let Some((p, c, f)) = a {
        lemma_bitmap_fits_box(f);
        lemma_bitmap_fits_box(f.spec_rotated());
    }
}

/// A piece spawned on a grid lies inside the board, and it is placed only
/// where it lies on no locked cell.
pub proof fn lemma_spawn_keeps_invariants(cells: Seq<Option<TetrisCellColor>>, f: Figure)
    ensures
        active_in_bounds(Some((spawn_point(f), f.spec_color(), f))),
        !overlaps(cells, spawn_point(f), f) ==> no_overlap(
            cells,
            Some((spawn_point(f), f.spec_color(), f)),
        ),
{
    lemma_spawn_in_bounds(f);
}

/// What holds after a piece drawn at random is spawned on `cells`, whatever
/// was drawn: the grid stays as it was, the count rises by one, and the game
/// goes on (`r`) exactly when a piece is active. That piece sits at its spawn
/// point in its own color, inside the board and on no locked cell, and when
/// every variant would fit there the game certainly goes on.
pub open spec fn drawn_spawn(
    cells: Seq<Option<TetrisCellColor>>,
    n: nat,
    cells2: Seq<Option<TetrisCellColor>>,
    a2: Option<ActivePiece>,
    n2: nat,
    r: bool,
) -> bool {
    &&& n2 == n + 1
    &&& cells2 == cells
    &&& r == a2 is Some
    &&& a2 matches Some((p, c, f)) ==> {
        &&& p == spawn_point(f)
        &&& c == f.spec_color()
        &&& piece_in_bounds(p, f)
        &&& !overlaps(cells, p, f)
    }
    &&& (forall|f: Figure| !#[trigger] overlaps(cells, spawn_point(f), f)) ==> r
}

/// What handling `event` does to the grid `cells`, the active piece `a` and
/// the spawn count `n`, giving `cells2`, `a2`, `n2` and the result `r`. An
/// input that does not lock the piece acts exactly as `input_outcome` says and
/// the game goes on. One that locks it clears the full rows of the grid it
/// leaves, and a drawn piece is spawned on the cleared grid.
pub open spec fn event_effect(
    cells: Seq<Option<TetrisCellColor>>,
    a: Option<ActivePiece>,
    n: nat,
    event: GameInputEvent,
    cells2: Seq<Option<TetrisCellColor>>,
    a2: Option<ActivePiece>,
    n2: nat,
    r: bool,
) -> bool {
    let (c1, a1, locked) = input_outcome(cells, a, event);
    if locked {
        drawn_spawn(cleared(c1), n, cells2, a2, n2, r)
    } else {
        &&& r
        &&& n2 == n
        &&& cells2 == c1
        &&& a2 == a1
    }
}

/// The engine: the board, the random source for new pieces and the number
/// of pieces spawned so far.
pub struct TetrisGame {
    cell_screen: TetrisCellScreen,
    rng: StdRng,
    figures_generated: usize,
}

impl TetrisGame {
    pub closed spec fn screen(&self) -> TetrisCellScreen {
        self.cell_screen
    }

    /// The state of the random source that new pieces are drawn from.
    pub closed spec fn rng_state(&self) -> StdRng {
        self.rng
    }

    /// Number of pieces spawned so far, including one whose spawn failed.
    pub closed spec fn spawned(&self) -> nat {
        self.figures_generated as nat
    }

    pub open spec fn cells_view(&self) -> Seq<Option<TetrisCellColor>> {
        self.screen().cells_view()
    }

    pub open spec fn active(&self) -> Option<ActivePiece> {
        self.screen().active()
    }

    /// The board is well formed, the active piece lies inside the board and
    /// on no locked cell.
    pub open spec fn wf(&self) -> bool {
        &&& self.screen().wf()
        &&& no_overlap(self.cells_view(), self.active())
    }

    /// Whether `figure` anchored at `new_point` lands on a locked cell.
    fn figure_overlaps_cells(&self, new_point: &Point, figure: &Figure) -> (r: bool)
        requires
            self.wf(),
            piece_in_bounds(*new_point, *figure),
        ensures
            r == overlaps(self.cells_view(), *new_point, *figure),
    {
        let bitmap = figure.bitmap();
        let cells = self.cell_screen.cells();
        let fig_dim = figure.dimensions();
        proof {
            lemma_bitmap_fits_box(*figure);
        }
        let mut y: usize = 0;
        while y < fig_dim.1
            invariant
                piece_in_bounds(*new_point, *figure),
                fig_dim == figure.spec_dimensions(),
                bitmap@ == figure.spec_bitmap(),
                bitmap@.len() == fig_dim.0 * fig_dim.1,
                cells@ == self.cells_view(),
                cells@.len() == CELL_COUNT_X * CELL_COUNT_Y,
                y <= fig_dim.1,
                forall|a: int, b: int|
                    0 <= b < y && #[trigger] figure.occupies(a, b) ==> cells@[cell_index(
                        new_point.0 + a,
                        new_point.1 + b,
                    )] is None,
            decreases fig_dim.1 - y,
        {
            let mut x: usize = 0;
            while x < fig_dim.0
                invariant
                    piece_in_bounds(*new_point, *figure),
                    fig_dim == figure.spec_dimensions(),
                    bitmap@ == figure.spec_bitmap(),
                    bitmap@.len() == fig_dim.0 * fig_dim.1,
                    cells@ == self.cells_view(),
                    cells@.len() == CELL_COUNT_X * CELL_COUNT_Y,
                    y < fig_dim.1,
                    x <= fig_dim.0,
                    forall|a: int, b: int|
                        (0 <= b < y || (b == y && 0 <= a < x)) && #[trigger] figure.occupies(a, b)
                            ==> cells@[cell_index(new_point.0 + a, new_point.1 + b)] is None,
                decreases fig_dim.0 - x,
            {
                let idx = (new_point.1 + y) * CELL_COUNT_X + new_point.0 + x;
                let bit = y * fig_dim.0 + x;
                assert(bit < fig_dim.0 * fig_dim.1) by (nonlinear_arith)
                    requires
                        bit == y * fig_dim.0 + x,
                        y < fig_dim.1,
                        x < fig_dim.0,
                ;
                assert(idx < CELL_COUNT_X * CELL_COUNT_Y) by (nonlinear_arith)
                    requires
                        idx == (new_point.1 + y) * CELL_COUNT_X + new_point.0 + x,
                        new_point.1 + y < CELL_COUNT_Y,
                        new_point.0 + x < CELL_COUNT_X,
                ;
                if bitmap[bit] && cells[idx].is_some() {
                    proof {
                        assert(figure.occupies(x as int, y as int));
                        assert(cell_index(new_point.0 + x, new_point.1 + y) == idx);
                    }
                    return true;
                }
                x = x + 1;
            }
            y = y + 1;
        }
        false
    }

    /// Moves the active piece one column to the left when that column
    /// exists and its cells are free; otherwise nothing changes.
    pub fn move_figure_left(&mut self)
        requires
            old(self).wf(),
        ensures
            final(self).wf(),
            final(self).spawned() == old(self).spawned(),
            final(self).rng_state() == old(self).rng_state(),
            final(self).cells_view() == old(self).cells_view(),
            final(self).active() == after_move_left(old(self).cells_view(), old(self).active()),
    {
        match self.cell_screen.get_figure() {
            Some((point, color, figure)) => {
                if point.0 > 0 {
                    let moved = Point(point.0 - 1, point.1);
                    if !self.figure_overlaps_cells(&moved, &figure) {
                        self.cell_screen.set_figure(moved, color, figure);
                    }
                }
            },
            None => {},
        }
    }

    /// Moves the active piece one column to the right when that column
    /// exists and its cells are free; otherwise nothing changes.
    pub fn move_figure_right(&mut self)
        requires
            old(self).wf(),
        ensures
            final(self).wf(),
            final(self).spawned() == old(self).spawned(),
            final(self).rng_state() == old(self).rng_state(),
            final(self).cells_view() == old(self).cells_view(),
            final(self).active() == after_move_right(old(self).cells_view(), old(self).active()),
    {
        match self.cell_screen.get_figure() {
            Some((point, color, figure)) => {
                if point.0 < self.cell_screen.dimensions().0 - figure.dimensions().0 {
                    let moved = Point(point.0 + 1, point.1);
                    if !self.figure_overlaps_cells(&moved, &figure) {
                        self.cell_screen.set_figure(moved, color, figure);
                    }
                }
            },
            None => {},
        }
    }

    /// Rotates the active piece clockwise. The successor's anchor is the
    /// old anchor plus the rotation's correction, pushed back inside the
    /// board where it would stick out. The rotation is refused, leaving the
    /// piece as it was, when the rotated piece would lie on a locked cell:
    /// a rotation never buries a piece in the locked cells.
    pub fn rotate_clockwise(&mut self)
        requires
            old(self).wf(),
        ensures
            final(self).wf(),
            final(self).spawned() == old(self).spawned(),
            final(self).rng_state() == old(self).rng_state(),
            final(self).cells_view() == old(self).cells_view(),
            final(self).active() == after_rotate(old(self).cells_view(), old(self).active()),
    {
        match self.cell_screen.get_figure() {
            Some((point, color, figure)) => {
                let (offset, rotated_figure) = figure.rotate_clockwise();
                proof {
                    lemma_bitmap_fits_box(rotated_figure);
                }
                let dim = self.cell_screen.dimensions();
                let fig_dim = rotated_figure.dimensions();
                let raw_x = point.0 as isize + offset.0;
                let raw_y = point.1 as isize + offset.1;
                let max_x = dim.0 - fig_dim.0;
                let max_y = dim.1 - fig_dim.1;
                let new_x: usize = if raw_x < 0 {
                    0
                } else if raw_x as usize > max_x {
                    max_x
                } else {
                    raw_x as usize
                };
                let new_y: usize = if raw_y < 0 {
                    0
                } else if raw_y as usize > max_y {
                    max_y
                } else {
                    raw_y as usize
                };
                let target = Point(new_x, new_y);
                assert(target == rotation_point(point, figure));
                if !self.figure_overlaps_cells(&target, &rotated_figure) {
                    self.cell_screen.set_figure(target, color, rotated_figure);
                }
            },
            None => {},
        }
    }

    /// One step of falling. When the piece can fall by one row it does, and
    /// the result is true. Otherwise it locks where it is: its occupied
    /// cells are written into the grid, it stops being active, and the
    /// result is false. Without an active piece the result is false and
    /// nothing changes.
    pub fn try_move_figure_down(&mut self) -> (r: bool)
        requires
            old(self).wf(),
        ensures
            final(self).wf(),
            final(self).spawned() == old(self).spawned(),
            final(self).rng_state() == old(self).rng_state(),
            match old(self).active() {
                Some((p, c, f)) => if can_descend(old(self).cells_view(), p, f) {
                    &&& r
                    &&& final(self).cells_view() == old(self).cells_view()
                    &&& final(self).active() == Some((Point(p.0, (p.1 + 1) as usize), c, f))
                } else {
                    &&& !r
                    &&& final(self).cells_view() == merged(old(self).cells_view(), p, c, f)
                    &&& final(self).active() is None
                },
                None => {
                    &&& !r
                    &&& final(self).cells_view() == old(self).cells_view()
                    &&& final(self).active() is None
                },
            },
    {
        let (point, color, figure) = match self.cell_screen.get_figure() {
            Some(a) => a,
            None => {
                return false;
            },
        };
        let fig_dim = figure.dimensions();
        proof {
            lemma_bitmap_fits_box(figure);
        }
        let can_go_down = point.1 + fig_dim.1 < self.cell_screen.dimensions().1
            && !self.figure_overlaps_cells(&Point(point.0, point.1 + 1), &figure);
        if can_go_down {
            self.cell_screen.set_figure(Point(point.0, point.1 + 1), color, figure);
            return true;
        }
        let ghost cells0 = self.cells_view();
        let mut i: usize = 0;
        while i < CELL_COUNT_X * CELL_COUNT_Y
            invariant
                self.cell_screen.wf(),
                self.figures_generated == old(self).figures_generated,
                self.rng == old(self).rng,
                self.active() == Some((point, color, figure)),
                fig_dim == figure.spec_dimensions(),
                piece_in_bounds(point, figure),
                figure.spec_bitmap().len() == fig_dim.0 * fig_dim.1,
                fig_dim.0 <= 4,
                fig_dim.1 <= 4,
                cells0.len() == CELL_COUNT_X * CELL_COUNT_Y,
                i <= CELL_COUNT_X * CELL_COUNT_Y,
                self.cells_view() == Seq::new(
                    cells0.len(),
                    |j: int|
                        if j < i && piece_covers(point, figure, j) {
                            Some(color)
                        } else {
                            cells0[j]
                        },
                ),
            decreases CELL_COUNT_X * CELL_COUNT_Y - i,
        {
            let x = i % CELL_COUNT_X;
            let y = i / CELL_COUNT_X;
            let ghost before = self.cells_view();
            if x >= point.0 && x - point.0 < fig_dim.0 && y >= point.1 && y - point.1 < fig_dim.1 {
                let dx = x - point.0;
                let dy = y - point.1;
                assert(dy * fig_dim.0 + dx < fig_dim.0 * fig_dim.1 <= 16) by (nonlinear_arith)
                    requires
                        dy < fig_dim.1,
                        dx < fig_dim.0,
                        fig_dim.0 <= 4,
                        fig_dim.1 <= 4,
                ;
                let k = dy * fig_dim.0 + dx;
                let cell = self.cell_screen.figure_layer()[k];
                if cell.is_some() {
                    self.cell_screen.set_cell(Point(x, y), cell);
                }
                proof {
                    assert(cell_index(x as int, y as int) == i);
                    assert(self.cells_view() =~= Seq::new(
                        cells0.len(),
                        |j: int|
                            if j < i + 1 && piece_covers(point, figure, j) {
                                Some(color)
                            } else {
                                cells0[j]
                            },
                    ));
                }
            } else {
                proof {
                    assert(self.cells_view() =~= Seq::new(
                        cells0.len(),
                        |j: int|
                            if j < i + 1 && piece_covers(point, figure, j) {
                                Some(color)
                            } else {
                                cells0[j]
                            },
                    ));
                }
            }
            i = i + 1;
        }
        self.cell_screen.remove_figure();
        proof {
            assert(self.cells_view() =~= merged(cells0, point, color, figure));
        }
        false
    }

    /// Hard drop: the active piece falls as far as it can and locks there.
    /// Without an active piece nothing changes.
    pub fn move_figure_down(&mut self)
        requires
            old(self).wf(),
        ensures
            final(self).wf(),
            final(self).spawned() == old(self).spawned(),
            final(self).rng_state() == old(self).rng_state(),
            final(self).cells_view() == after_hard_drop(old(self).cells_view(), old(self).active()),
            final(self).active() is None,
    {
        let ghost cells0 = self.cells_view();
        let ghost a0 = self.active();
        loop
            invariant_except_break
                self.cells_view() == cells0,
                a0 is None ==> self.active() is None,
                a0 matches Some((p, c, f)) ==> (self.active() matches Some((q, cq, fq)) && cq == c
                    && fq == f && q.0 == p.0 && landing_row(cells0, q, f) == landing_row(
                    cells0,
                    p,
                    f,
                )),
            invariant
                self.wf(),
                self.spawned() == old(self).spawned(),
                self.rng_state() == old(self).rng_state(),
            ensures
                self.cells_view() == after_hard_drop(cells0, a0),
                self.active() is None,
            decreases CELL_COUNT_Y - anchor_row(self.active()),
        {
            let ghost before = self.active();
            let moved = self.try_move_figure_down();
            proof {
                if let Some((q, c, f)) = before {
                    if moved {
                        assert(landing_row(cells0, q, f) == landing_row(
                            cells0,
                            Point(q.0, (q.1 + 1) as usize),
                            f,
                        ));
                    } else {
                        assert(landing_row(cells0, q, f) == q.1);
                        assert(Point(q.0, q.1 as usize) == q);
                    }
                }
            }
            if !moved {
                break;
            }
        }
    }

    /// Puts `figure` at its spawn point in its own color, unless it would
    /// lie on a locked cell: then there is no active piece and the result,
    /// false, means the game is over. The grid is left as it was either
    /// way, and the spawn count goes up by one.
    pub fn spawn_figure(&mut self, figure: Figure) -> (r: bool)
        requires
            old(self).wf(),
            old(self).spawned() < usize::MAX,
        ensures
            final(self).wf(),
            final(self).spawned() == old(self).spawned() + 1,
            final(self).rng_state() == old(self).rng_state(),
            final(self).cells_view() == old(self).cells_view(),
            r == !overlaps(old(self).cells_view(), spawn_point(figure), figure),
            r ==> final(self).active() == Some((spawn_point(figure), figure.spec_color(), figure)),
            !r ==> final(self).active() is None,
    {
        self.cell_screen.remove_figure();
        let offset = figure.offset_from_top_center();
        let dim = self.cell_screen.dimensions();
        proof {
            lemma_spawn_in_bounds(figure);
        }
        let point = Point((dim.0 as isize / 2 + offset.0) as usize, offset.1 as usize);
        self.figures_generated = self.figures_generated + 1;
        if self.figure_overlaps_cells(&point, &figure) {
            false
        } else {
            self.cell_screen.set_figure(point, figure.color(), figure);
            true
        }
    }

    /// Spawns a piece drawn from the random source; see `spawn_figure`.
    /// The result is false, the game over, when the drawn piece does not fit.
    pub fn create_new_figure(&mut self) -> (r: bool)
        requires
            old(self).wf(),
            old(self).spawned() < usize::MAX,
        ensures
            final(self).wf(),
            drawn_spawn(
                old(self).cells_view(),
                old(self).spawned(),
                final(self).cells_view(),
                final(self).active(),
                final(self).spawned(),
                r,
            ),
    {
        let figure = Figure::rand(&mut self.rng);
        self.spawn_figure(figure)
    }

    /// Applies one input to the active piece. The result tells whether the
    /// piece locked, after which full lines are cleared and a new piece is due.
    pub fn apply_input(&mut self, event: GameInputEvent) -> (r: bool)
        requires
            old(self).wf(),
        ensures
            final(self).wf(),
            final(self).spawned() == old(self).spawned(),
            final(self).rng_state() == old(self).rng_state(),
            (final(self).cells_view(), final(self).active(), r) == input_outcome(
                old(self).cells_view(),
                old(self).active(),
                event,
            ),
    {
        match event {
            GameInputEvent::Timer => !self.try_move_figure_down(),
            GameInputEvent::MoveLeft => {
                self.move_figure_left();
                false
            },
            GameInputEvent::MoveRight => {
                self.move_figure_right();
                false
            },
            GameInputEvent::MoveDown => {
                self.move_figure_down();
                true
            },
            GameInputEvent::RotateClockwise => {
                self.rotate_clockwise();
                false
            },
        }
    }

    /// Clears the full rows of the grid once the piece has locked.
    pub fn remove_filled_lines(&mut self)
        requires
            old(self).wf(),
            old(self).active() is None,
        ensures
            final(self).wf(),
            final(self).spawned() == old(self).spawned(),
            final(self).rng_state() == old(self).rng_state(),
            final(self).cells_view() == cleared(old(self).cells_view()),
            final(self).active() is None,
            (forall|r: int| 0 <= r < CELL_COUNT_Y ==> !row_full(old(self).cells_view(), r))
                ==> final(self).cells_view() == old(self).cells_view(),
    {
        self.cell_screen.remove_filled_lines();
    }

    /// Handles one input. When it locks the piece, full lines are cleared
    /// and a new piece is drawn; the result is false exactly when that new
    /// piece does not fit, which ends the game.
    pub fn handle_event(&mut self, event: GameInputEvent) -> (r: bool)
        requires
            old(self).wf(),
            old(self).spawned() < usize::MAX,
        ensures
            final(self).wf(),
            event_effect(
                old(self).cells_view(),
                old(self).active(),
                old(self).spawned(),
                event,
                final(self).cells_view(),
                final(self).active(),
                final(self).spawned(),
                r,
            ),
            !input_outcome(old(self).cells_view(), old(self).active(), event).2
                ==> final(self).rng_state() == old(self).rng_state(),
    {
        if self.apply_input(event) {
            self.remove_filled_lines();
            self.create_new_figure()
        } else {
            true
        }
    }

    /// A new game on an empty board with its first piece in place.
    pub fn new(rng: StdRng) -> (r: Self)
        ensures
            r.wf(),
            r.spawned() == 1,
            r.cells_view() == crate::screen::empty_cells(),
            r.active() matches Some((p, c, f)) && p == spawn_point(f) && c == f.spec_color(),
    {
        let mut game = TetrisGame { cell_screen: TetrisCellScreen::new(), rng, figures_generated: 0 };
        let figure = Figure::rand(&mut game.rng);
        proof {
            lemma_spawn_in_bounds(figure);
            lemma_empty_has_no_overlap(game.cells_view(), spawn_point(figure), figure);
        }
        let placed = game.spawn_figure(figure);
        assert(placed);
        game
    }

    /// A game on a board prepared by the caller, with no piece spawned yet.
    /// The board's active piece, if any, must lie on no locked cell.
    pub fn with_screen(cell_screen: TetrisCellScreen, rng: StdRng) -> (r: Self)
        requires
            cell_screen.wf(),
            no_overlap(cell_screen.cells_view(), cell_screen.active()),
        ensures
            r.wf(),
            r.spawned() == 0,
            r.screen() == cell_screen,
    {
        TetrisGame { cell_screen, rng, figures_generated: 0 }
    }

    /// The board, for reading and rendering.
    pub fn cell_screen(&self) -> (r: &TetrisCellScreen)
        ensures
            *r == self.screen(),
    {
        &self.cell_screen
    }

    /// Number of pieces spawned so far.
    pub fn figures_generated(&self) -> (r: usize)
        ensures
            r == self.spawned(),
    {
        self.figures_generated
    }

    /// Size of the window that shows the board, in layout units.
    pub fn window_size(&self) -> (r: (u32, u32))
        requires
            self.wf(),
        ensures
            r == (420u32, 660u32),
    {
        let ws = self.cell_screen.window_size();
        (ws.0 as u32, ws.1 as u32)
    }
}

} // verus!
