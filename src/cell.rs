use vstd::prelude::*;

verus! {

/// Display color of a locked cell or of the active piece's cells.
#[derive(Clone, Copy, Debug, PartialEq, Eq, Structural)]
pub enum TetrisCellColor {
    Red,
    Orange,
    Yellow,
    Green,
    Blue,
    DeepBlue,
    Purple,
}

impl TetrisCellColor {
    /// The red, green and blue components a renderer paints this color with.
    pub open spec fn spec_rgb(self) -> (u8, u8, u8) {
        match self {
            TetrisCellColor::Red => (200, 0, 0),
            TetrisCellColor::Orange => (180, 130, 0),
            TetrisCellColor::Yellow => (180, 180, 0),
            TetrisCellColor::Green => (0, 200, 0),
            TetrisCellColor::Blue => (0, 180, 180),
            TetrisCellColor::DeepBlue => (0, 0, 200),
            TetrisCellColor::Purple => (180, 0, 180),
        }
    }

    pub fn rgb(&self) -> (r: (u8, u8, u8))
        ensures
            r == self.spec_rgb(),
    {
        match self {
            TetrisCellColor::Red => (200, 0, 0),
            TetrisCellColor::Orange => (180, 130, 0),
            TetrisCellColor::Yellow => (180, 180, 0),
            TetrisCellColor::Green => (0, 200, 0),
            TetrisCellColor::Blue => (0, 180, 180),
            TetrisCellColor::DeepBlue => (0, 0, 200),
            TetrisCellColor::Purple => (180, 0, 180),
        }
    }
}

/// A board coordinate: column, then row, counted from the top-left corner.
#[derive(Clone, Copy, Debug, PartialEq, Eq, Structural)]
pub struct Point(pub usize, pub usize);

/// A width and a height, in cells or in layout units.
#[derive(Clone, Copy, Debug, PartialEq, Eq, Structural)]
pub struct Dimensions(pub usize, pub usize);

/// A signed displacement of a point: columns, then rows.
#[derive(Clone, Copy, Debug, PartialEq, Eq, Structural)]
pub struct PointOffset(pub isize, pub isize);

} // verus!
