//! Headings: the four movement directions, the displacement each one applies
//! to a cell, and the controller that holds the currently requested heading.
//!
//! Moving off the end of the coordinate range wraps around: the board model
//! leaves out-of-bounds movement unguarded, so the wraparound of unsigned
//! coordinate arithmetic is made explicit here rather than left undefined.

use vstd::prelude::*;
use crate::grid::Position;

verus! {

/// One of the four directions the chain can advance in.
#[derive(Clone, Copy, Debug, PartialEq, Eq, Structural)]
pub enum Direction {
    Left,
    Right,
    Up,
    Down,
}

/// The cell one step from `p` in direction `d`. `Right` and `Left` change
/// the column, `Up` and `Down` the row; each coordinate wraps at the ends
/// of the `usize` range.
pub open spec fn move_spec(d: Direction, p: Position) -> Position {
    match d {
        Direction::Left => Position {
            x: if p.x == 0 { usize::MAX } else { (p.x - 1) as usize },
            y: p.y,
        },
        Direction::Right => Position {
            x: if p.x == usize::MAX { 0 } else { (p.x + 1) as usize },
            y: p.y,
        },
        Direction::Up => Position {
            x: p.x,
            y: if p.y == usize::MAX { 0 } else { (p.y + 1) as usize },
        },
        Direction::Down => Position {
            x: p.x,
            y: if p.y == 0 { usize::MAX } else { (p.y - 1) as usize },
        },
    }
}

impl Direction {
    /// Applies this heading's unit displacement to `position`.
    pub fn mov(&self, position: &Position) -> (r: Position)
        ensures
            r == move_spec(*self, *position),
    {
        match self {
            Direction::Left => Position {
                x: if position.x == 0 { usize::MAX } else { position.x - 1 },
                y: position.y,
            },
            Direction::Right => Position {
                x: if position.x == usize::MAX { 0 } else { position.x + 1 },
                y: position.y,
            },
            Direction::Up => Position {
                x: position.x,
                y: if position.y == usize::MAX { 0 } else { position.y + 1 },
            },
            Direction::Down => Position {
                x: position.x,
                y: if position.y == 0 { usize::MAX } else { position.y - 1 },
            },
        }
    }
}

/// Heading application is a pure function of the direction and the cell:
/// away from the wraparound boundary, `Right` adds one to the column,
/// `Left` subtracts one, `Up` adds one to the row and `Down` subtracts one.
pub proof fn lemma_move_is_pure(p: Position)
    ensures
        p.x < usize::MAX ==> move_spec(Direction::Right, p) == (Position {
            x: (p.x + 1) as usize,
            y: p.y,
        }),
        p.x > 0 ==> move_spec(Direction::Left, p) == (Position {
            x: (p.x - 1) as usize,
            y: p.y,
        }),
        p.y < usize::MAX ==> move_spec(Direction::Up, p) == (Position {
            x: p.x,
            y: (p.y + 1) as usize,
        }),
        p.y > 0 ==> move_spec(Direction::Down, p) == (Position {
            x: p.x,
            y: (p.y - 1) as usize,
        }),
{
}

/// Holds the heading the player has most recently requested. Every request
/// is accepted, reversals included; the engine reads the heading once per
/// tick, so the last request before a tick is the one that tick follows.
pub struct DirectionController {
    pub heading: Direction,
}

impl DirectionController {
    pub fn new(initial: Direction) -> (c: DirectionController)
        ensures
            c.heading == initial,
    {
        DirectionController { heading: initial }
    }

    /// Unconditionally overwrites the current heading; nothing else changes.
    pub fn set_heading(&mut self, requested: Direction)
        ensures
            final(self).heading == requested,
    {
        self.heading = requested;
    }

    /// The heading the next tick will follow.
    pub fn current_heading(&self) -> (d: Direction)
        ensures
            d == self.heading,
    {
        self.heading
    }
}

} // verus!
