//! Grid cells: integer coordinate pairs that the chain and the food occupy.

use vstd::prelude::*;

verus! {

/// One cell of the board, addressed by its column `x` and row `y`.
/// Equality is component-wise.
#[derive(Clone, Copy, Debug, PartialEq, Eq, Structural)]
pub struct Position {
    pub x: usize,
    pub y: usize,
}

impl From<(usize, usize)> for Position {
    fn from(value: (usize, usize)) -> (r: Self)
        ensures
            r == (Position { x: value.0, y: value.1 }),
    {
        Position { x: value.0, y: value.1 }
    }
}

impl vstd::std_specs::convert::FromSpecImpl<(usize, usize)> for Position {
    open spec fn obeys_from_spec() -> bool {
        true
    }

    open spec fn from_spec(value: (usize, usize)) -> Self {
        Position { x: value.0, y: value.1 }
    }
}

} // verus!
