//! Board configuration and the per-frame game state: fixed board
//! dimensions, coordinate validity, and the tick clock.

use vstd::prelude::*;
use crate::grid::Position;
use crate::clock::TickClock;

verus! {

/// Number of columns of the board.
pub const BOARD_WIDTH: usize = 10;

/// Number of rows of the board.
pub const BOARD_HEIGHT: usize = 10;

/// Milliseconds between two simulation ticks.
pub const TICK_PERIOD_MS: u64 = 500;

/// The fixed board dimensions together with the clock that schedules
/// ticks. Dimensions are set once at construction; the engine itself does
/// not enforce them on movement (the board has no walls), they only define
/// which cells count as on the board.
pub struct GameState {
    pub width: usize,
    pub height: usize,
    pub clock: TickClock,
}

impl GameState {
    pub open spec fn wf(self) -> bool {
        self.clock.wf()
    }

    pub fn new() -> (s: GameState)
        ensures
            s.width == BOARD_WIDTH,
            s.height == BOARD_HEIGHT,
            s.clock.period_ms == TICK_PERIOD_MS,
            s.clock.accumulated_ms == 0,
            s.wf(),
    {
        GameState { width: BOARD_WIDTH, height: BOARD_HEIGHT, clock: TickClock::new(TICK_PERIOD_MS) }
    }

    /// Whether `p` lies on the board: both coordinates below the dimensions.
    pub fn in_bounds(&self, p: &Position) -> (r: bool)
        ensures
            r == (p.x < self.width && p.y < self.height),
    {
        p.x < self.width && p.y < self.height
    }
}

} // verus!
