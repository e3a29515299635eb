use vstd::prelude::*;

use crate::cell::{Dimensions, PointOffset, TetrisCellColor};
use rand::rngs::StdRng;

verus! {

/// rand's standard generator, carried through the engine as its random source.
#[verifier::external_type_specification]
#[verifier::external_body]
pub struct ExStdRng(StdRng);

/// Relies on rand::RngCore::next_u32 for StdRng: draws the next 32-bit value
/// of the generator's stream. Nothing is known of the value drawn.
#[verifier::external_body]
fn next_roll(rng: &mut StdRng) -> (r: u32) {
    rand::RngCore::next_u32(rng)
}

/// One rotation state of a piece. Rotating yields a different variant; no
/// variant is ever transformed in place.
#[derive(Clone, Copy, Debug, PartialEq, Eq, Structural)]
pub enum Figure {
    Cube,
    LineHorizontal,
    LineVertical,
    LeftL0,
    LeftL90,
    LeftL180,
    LeftL270,
    RightL0,
    RightL90,
    RightL180,
    RightL270,
    LeftZigzagHorizontal,
    LeftZigzagVertical,
    RightZigzagHorizontal,
    RightZigzagVertical,
    Pyramid0,
    Pyramid90,
    Pyramid180,
    Pyramid270,
}

/// How many distinct values a draw for a new piece is reduced to; each
/// variant owns a fixed share of them.
pub const ROLL_BUCKETS: u32 = 28;

impl Figure {
    /// Where the anchor goes relative to the top center of the board at spawn.
    pub open spec fn spec_offset_from_top_center(self) -> PointOffset {
        match self {
            Figure::LineHorizontal | Figure::LeftL90 | Figure::LeftL270 | Figure::RightL90
            | Figure::RightL270 => PointOffset(-2isize, 0isize),
            Figure::LineVertical => PointOffset(0, 0),
            _ => PointOffset(-1isize, 0isize),
        }
    }

    /// Width and height of the variant's bounding box.
    pub open spec fn spec_dimensions(self) -> Dimensions {
        match self {
            Figure::Cube => Dimensions(2, 2),
            Figure::LineHorizontal => Dimensions(4, 1),
            Figure::LineVertical => Dimensions(1, 4),
            Figure::LeftL0 | Figure::LeftL180 | Figure::RightL0 | Figure::RightL180
            | Figure::LeftZigzagVertical | Figure::RightZigzagVertical | Figure::Pyramid90
            | Figure::Pyramid270 => Dimensions(2, 3),
            _ => Dimensions(3, 2),
        }
    }

    pub open spec fn spec_color(self) -> TetrisCellColor {
        match self {
            Figure::Cube => TetrisCellColor::Red,
            Figure::LineHorizontal | Figure::LineVertical => TetrisCellColor::Orange,
            Figure::LeftL0 | Figure::LeftL90 | Figure::LeftL180 | Figure::LeftL270 => TetrisCellColor::Yellow,
            Figure::RightL0 | Figure::RightL90 | Figure::RightL180 | Figure::RightL270 => TetrisCellColor::Green,
            Figure::LeftZigzagHorizontal | Figure::LeftZigzagVertical => TetrisCellColor::Blue,
            Figure::RightZigzagHorizontal | Figure::RightZigzagVertical => TetrisCellColor::DeepBlue,
            _ => TetrisCellColor::Purple,
        }
    }

    /// Occupancy of the bounding box, row by row from the top.
    pub open spec fn spec_bitmap(self) -> Seq<bool> {
        match self {
            Figure::Cube => seq![true, true, true, true],
            Figure::LineHorizontal | Figure::LineVertical => seq![true, true, true, true],
            Figure::LeftL0 => seq![true, true, false, true, false, true],
            Figure::LeftL90 => seq![false, false, true, true, true, true],
            Figure::LeftL180 => seq![true, false, true, false, true, true],
            Figure::LeftL270 => seq![true, true, true, true, false, false],
            Figure::RightL0 => seq![true, true, true, false, true, false],
            Figure::RightL90 => seq![true, true, true, false, false, true],
            Figure::RightL180 => seq![false, true, false, true, true, true],
            Figure::RightL270 => seq![true, false, false, true, true, true],
            Figure::LeftZigzagHorizontal => seq![false, true, true, true, true, false],
            Figure::LeftZigzagVertical => seq![true, false, true, true, false, true],
            Figure::RightZigzagHorizontal => seq![true, true, false, false, true, true],
            Figure::RightZigzagVertical => seq![false, true, true, true, true, false],
            Figure::Pyramid0 => seq![false, true, false, true, true, true],
            Figure::Pyramid90 => seq![true, false, true, true, true, false],
            Figure::Pyramid180 => seq![true, true, true, false, true, false],
            Figure::Pyramid270 => seq![false, true, true, true, false, true],
        }
    }

    /// Whether the cell at column `x`, row `y` of the bounding box is part of the piece.
    pub open spec fn occupies(self, x: int, y: int) -> bool {
        &&& 0 <= x < self.spec_dimensions().0
        &&& 0 <= y < self.spec_dimensions().1
        &&& self.spec_bitmap()[y * self.spec_dimensions().0 + x]
    }

    /// The clockwise successor and the anchor correction that keeps the
    /// rotated piece over its old footprint.
    pub open spec fn spec_rotate_clockwise(self) -> (PointOffset, Figure) {
        match self {
            Figure::Cube => (PointOffset(0, 0), Figure::Cube),
            Figure::LineHorizontal => (PointOffset(2isize, -2isize), Figure::LineVertical),
            Figure::LineVertical => (PointOffset(-2isize, 2isize), Figure::LineHorizontal),
            Figure::LeftL0 => (PointOffset(0, 0), Figure::LeftL90),
            Figure::LeftL90 => (PointOffset(0, 0), Figure::LeftL180),
            Figure::LeftL180 => (PointOffset(0, 0), Figure::LeftL270),
            Figure::LeftL270 => (PointOffset(0, 0), Figure::LeftL0),
            Figure::RightL0 => (PointOffset(0, 0), Figure::RightL90),
            Figure::RightL90 => (PointOffset(0, 0), Figure::RightL180),
            Figure::RightL180 => (PointOffset(0, 0), Figure::RightL270),
            Figure::RightL270 => (PointOffset(0, 0), Figure::RightL0),
            Figure::LeftZigzagHorizontal => (PointOffset(0, 0), Figure::LeftZigzagVertical),
            Figure::LeftZigzagVertical => (PointOffset(0, 0), Figure::LeftZigzagHorizontal),
            Figure::RightZigzagHorizontal => (PointOffset(0, 0), Figure::RightZigzagVertical),
            Figure::RightZigzagVertical => (PointOffset(0, 0), Figure::RightZigzagHorizontal),
            Figure::Pyramid0 => (PointOffset(0, 0), Figure::Pyramid90),
            Figure::Pyramid90 => (PointOffset(0, 0), Figure::Pyramid180),
            Figure::Pyramid180 => (PointOffset(0, 0), Figure::Pyramid270),
            Figure::Pyramid270 => (PointOffset(0, 0), Figure::Pyramid0),
        }
    }

    pub open spec fn spec_rotated(self) -> Figure {
        self.spec_rotate_clockwise().1
    }

    /// The variant reached after `n` clockwise rotations.
    pub open spec fn rotated_times(self, n: nat) -> Figure
        decreases n,
    {
        if n == 0 {
            self
        } else {
            self.rotated_times((n - 1) as nat).spec_rotated()
        }
    }

    /// Length of the variant's rotation cycle.
    pub open spec fn rotation_period(self) -> nat {
        match self {
            Figure::Cube => 1,
            Figure::LineHorizontal | Figure::LineVertical | Figure::LeftZigzagHorizontal
            | Figure::LeftZigzagVertical | Figure::RightZigzagHorizontal
            | Figure::RightZigzagVertical => 2,
            _ => 4,
        }
    }

    /// The variant that a draw of `roll` yields: the draw is reduced modulo
    /// the bucket count and each bucket names one variant.
    pub open spec fn spec_from_roll(roll: u32) -> Figure {
        let b = roll % ROLL_BUCKETS;
        if b < 4 {
            Figure::Cube
        } else if b < 6 {
            Figure::LineHorizontal
        } else if b < 8 {
            Figure::LineVertical
        } else if b == 8 {
            Figure::LeftL0
        } else if b == 9 {
            Figure::LeftL90
        } else if b == 10 {
            Figure::LeftL180
        } else if b == 11 {
            Figure::LeftL270
        } else if b == 12 {
            Figure::RightL0
        } else if b == 13 {
            Figure::RightL90
        } else if b == 14 {
            Figure::RightL180
        } else if b == 15 {
            Figure::RightL270
        } else if b < 18 {
            Figure::LeftZigzagHorizontal
        } else if b < 20 {
            Figure::LeftZigzagVertical
        } else if b < 22 {
            Figure::RightZigzagHorizontal
        } else if b < 24 {
            Figure::RightZigzagVertical
        } else if b == 24 {
            Figure::Pyramid0
        } else if b == 25 {
            Figure::Pyramid90
        } else if b == 26 {
            Figure::Pyramid180
        } else {
            Figure::Pyramid270
        }
    }

    pub fn offset_from_top_center(&self) -> (r: PointOffset)
        ensures
            r == self.spec_offset_from_top_center(),
    {
        match self {
            Figure::LineHorizontal | Figure::LeftL90 | Figure::LeftL270 | Figure::RightL90
            | Figure::RightL270 => PointOffset(-2isize, 0isize),
            Figure::LineVertical => PointOffset(0, 0),
            _ => PointOffset(-1isize, 0isize),
        }
    }

    pub fn dimensions(&self) -> (r: Dimensions)
        ensures
            r == self.spec_dimensions(),
    {
        match self {
            Figure::Cube => Dimensions(2, 2),
            Figure::LineHorizontal => Dimensions(4, 1),
            Figure::LineVertical => Dimensions(1, 4),
            Figure::LeftL0 | Figure::LeftL180 | Figure::RightL0 | Figure::RightL180
            | Figure::LeftZigzagVertical | Figure::RightZigzagVertical | Figure::Pyramid90
            | Figure::Pyramid270 => Dimensions(2, 3),
            _ => Dimensions(3, 2),
        }
    }

    pub fn color(&self) -> (r: TetrisCellColor)
        ensures
            r == self.spec_color(),
    {
        match self {
            Figure::Cube => TetrisCellColor::Red,
            Figure::LineHorizontal | Figure::LineVertical => TetrisCellColor::Orange,
            Figure::LeftL0 | Figure::LeftL90 | Figure::LeftL180 | Figure::LeftL270 => TetrisCellColor::Yellow,
            Figure::RightL0 | Figure::RightL90 | Figure::RightL180 | Figure::RightL270 => TetrisCellColor::Green,
            Figure::LeftZigzagHorizontal | Figure::LeftZigzagVertical => TetrisCellColor::Blue,
            Figure::RightZigzagHorizontal | Figure::RightZigzagVertical => TetrisCellColor::DeepBlue,
            _ => TetrisCellColor::Purple,
        }
    }

    pub fn bitmap(&self) -> (r: Vec<bool>)
        ensures
            r@ == self.spec_bitmap(),
            r@.len() == self.spec_dimensions().0 * self.spec_dimensions().1,
    {
        let r = match self {
            Figure::Cube => vec![true, true, true, true],
            Figure::LineHorizontal | Figure::LineVertical => vec![true, true, true, true],
            Figure::LeftL0 => vec![true, true, false, true, false, true],
            Figure::LeftL90 => vec![false, false, true, true, true, true],
            Figure::LeftL180 => vec![true, false, true, false, true, true],
            Figure::LeftL270 => vec![true, true, true, true, false, false],
            Figure::RightL0 => vec![true, true, true, false, true, false],
            Figure::RightL90 => vec![true, true, true, false, false, true],
            Figure::RightL180 => vec![false, true, false, true, true, true],
            Figure::RightL270 => vec![true, false, false, true, true, true],
            Figure::LeftZigzagHorizontal => vec![false, true, true, true, true, false],
            Figure::LeftZigzagVertical => vec![true, false, true, true, false, true],
            Figure::RightZigzagHorizontal => vec![true, true, false, false, true, true],
            Figure::RightZigzagVertical => vec![false, true, true, true, true, false],
            Figure::Pyramid0 => vec![false, true, false, true, true, true],
            Figure::Pyramid90 => vec![true, false, true, true, true, false],
            Figure::Pyramid180 => vec![true, true, true, false, true, false],
            Figure::Pyramid270 => vec![false, true, true, true, false, true],
        };
        proof {
            assert(r@ =~= self.spec_bitmap());
            lemma_bitmap_fits_box(*self);
        }
        r
    }

    pub fn rotate_clockwise(self) -> (r: (PointOffset, Figure))
        ensures
            r == self.spec_rotate_clockwise(),
    {
        match self {
            Figure::Cube => (PointOffset(0, 0), Figure::Cube),
            Figure::LineHorizontal => (PointOffset(2isize, -2isize), Figure::LineVertical),
            Figure::LineVertical => (PointOffset(-2isize, 2isize), Figure::LineHorizontal),
            Figure::LeftL0 => (PointOffset(0, 0), Figure::LeftL90),
            Figure::LeftL90 => (PointOffset(0, 0), Figure::LeftL180),
            Figure::LeftL180 => (PointOffset(0, 0), Figure::LeftL270),
            Figure::LeftL270 => (PointOffset(0, 0), Figure::LeftL0),
            Figure::RightL0 => (PointOffset(0, 0), Figure::RightL90),
            Figure::RightL90 => (PointOffset(0, 0), Figure::RightL180),
            Figure::RightL180 => (PointOffset(0, 0), Figure::RightL270),
            Figure::RightL270 => (PointOffset(0, 0), Figure::RightL0),
            Figure::LeftZigzagHorizontal => (PointOffset(0, 0), Figure::LeftZigzagVertical),
            Figure::LeftZigzagVertical => (PointOffset(0, 0), Figure::LeftZigzagHorizontal),
            Figure::RightZigzagHorizontal => (PointOffset(0, 0), Figure::RightZigzagVertical),
            Figure::RightZigzagVertical => (PointOffset(0, 0), Figure::RightZigzagHorizontal),
            Figure::Pyramid0 => (PointOffset(0, 0), Figure::Pyramid90),
            Figure::Pyramid90 => (PointOffset(0, 0), Figure::Pyramid180),
            Figure::Pyramid180 => (PointOffset(0, 0), Figure::Pyramid270),
            Figure::Pyramid270 => (PointOffset(0, 0), Figure::Pyramid0),
        }
    }

    /// Draws a variant at random, each with the share of the buckets that
    /// `from_roll` gives it.
    pub fn rand(rng: &mut StdRng) -> (r: Figure)
        ensures
            exists|roll: u32| r == #[trigger] Figure::spec_from_roll(roll),
    {
        let roll = next_roll(rng);
        Figure::from_roll(roll)
    }

    /// The variant for a draw of `roll`.
    pub fn from_roll(roll: u32) -> (r: Figure)
        ensures
            r == Figure::spec_from_roll(roll),
    {
        let b = roll % ROLL_BUCKETS;
        if b < 4 {
            Figure::Cube
        } else if b < 6 {
            Figure::LineHorizontal
        } else if b < 8 {
            Figure::LineVertical
        } else if b == 8 {
            Figure::LeftL0
        } else if b == 9 {
            Figure::LeftL90
        } else if b == 10 {
            Figure::LeftL180
        } else if b == 11 {
            Figure::LeftL270
        } else if b == 12 {
            Figure::RightL0
        } else if b == 13 {
            Figure::RightL90
        } else if b == 14 {
            Figure::RightL180
        } else if b == 15 {
            Figure::RightL270
        } else if b < 18 {
            Figure::LeftZigzagHorizontal
        } else if b < 20 {
            Figure::LeftZigzagVertical
        } else if b < 22 {
            Figure::RightZigzagHorizontal
        } else if b < 24 {
            Figure::RightZigzagVertical
        } else if b == 24 {
            Figure::Pyramid0
        } else if b == 25 {
            Figure::Pyramid90
        } else if b == 26 {
            Figure::Pyramid180
        } else {
            Figure::Pyramid270
        }
    }
}

/// Rotating any variant clockwise as many times as its cycle is long brings
/// it back to itself, and no shorter positive number of rotations does.
pub proof fn lemma_rotation_cycle(f: Figure)
    ensures
        f.rotated_times(f.rotation_period()) == f,
        forall|k: nat| 0 < k < f.rotation_period() ==> f.rotated_times(k) != f,
{
    reveal_with_fuel(Figure::rotated_times, 5);
    assert forall|k: nat| 0 < k < f.rotation_period() implies f.rotated_times(k) != f by {
        reveal_with_fuel(Figure::rotated_times, 4);
        assert(k == 1 || k == 2 || k == 3);
    }
}

/// Every variant's bitmap covers its bounding box exactly, and its
/// bounding box is at most four cells on a side.
pub proof fn lemma_bitmap_fits_box(f: Figure)
    ensures
        f.spec_bitmap().len() == f.spec_dimensions().0 * f.spec_dimensions().1,
        1 <= f.spec_dimensions().0 <= 4,
        1 <= f.spec_dimensions().1 <= 4,
{
    let w = f.spec_dimensions().0 as int;
    let h = f.spec_dimensions().1 as int;
    let n = f.spec_bitmap().len() as int;
    assert({
        ||| w == 2 && h == 2 && n == 4
        ||| w == 4 && h == 1 && n == 4
        ||| w == 1 && h == 4 && n == 4
        ||| w == 2 && h == 3 && n == 6
        ||| w == 3 && h == 2 && n == 6
    });
    assert(n == w * h) by (nonlinear_arith)
        requires
            w == 2 && h == 2 && n == 4 || w == 4 && h == 1 && n == 4 || w == 1 && h == 4 && n == 4
                || w == 2 && h == 3 && n == 6 || w == 3 && h == 2 && n == 6,
    ;
}

} // verus!
