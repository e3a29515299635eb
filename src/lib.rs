//! Rule engine of a falling-block puzzle game: the playfield grid, the
//! catalog of piece shapes and their rotations, collision detection,
//! gravity, line clearing and the per-frame input controller.

mod cell;
mod control;
mod figure;
mod game;
mod screen;

pub use cell::{Dimensions, Point, PointOffset, TetrisCellColor};
pub use control::{
    FrameOutcome, KeyState, LoopController, INITIAL_DROP_PERIOD_MS, LOOP_PERIOD_MS, MOVE_PERIOD_MS,
    SPEED_UP_AFTER_FIGURE_COUNT,
};
pub use figure::{Figure, ROLL_BUCKETS};
pub use game::{ActivePiece, GameInputEvent, TetrisGame};
pub use screen::{
    TetrisCellScreen, CELL_COUNT_X, CELL_COUNT_Y, CELL_SIZE, CELL_SPACING, GLOBAL_OFFSET,
};
