//! The snake engine: the ordered chain of occupied cells and the one-tick
//! step that moves, detects food under the new head, and grows or shrinks.

use std::collections::VecDeque;
use vstd::prelude::*;
use crate::grid::Position;
use crate::heading::Direction;
use crate::heading::move_spec;
use crate::food::FoodItem;

verus! {

/// What one tick of the engine did: either the chain just advanced, or it
/// advanced onto a food item and consumed it, reporting that item's
/// identity so the spawner can retire it.
#[derive(Clone, Copy, Debug, PartialEq, Eq, Structural)]
pub enum StepResult {
    Advanced,
    Consumed(u64),
}

/// The first food item, in creation order, lying on the cell `head`;
/// `None` when no item does. Scanning stops at the first match, so at most
/// one item is consumed per tick.
pub open spec fn first_match_from(foods: Seq<FoodItem>, head: Position, i: int) -> Option<
    FoodItem,
>
    decreases foods.len() - i,
{
    if i < 0 || i >= foods.len() {
        None
    } else if foods[i].pos == head {
        Some(foods[i])
    } else {
        first_match_from(foods, head, i + 1)
    }
}

/// The food item the chain's new head lands on, if any: the first match
/// in creation order.
pub open spec fn first_consumed(foods: Seq<FoodItem>, head: Position) -> Option<FoodItem> {
    first_match_from(foods, head, 0)
}

/// The cell the chain's head moves onto this tick.
pub open spec fn new_head(parts: Seq<Position>, heading: Direction) -> Position {
    move_spec(heading, parts[0])
}

/// The growth credit right after the consumption scan: consuming a food
/// item raises it by one.
pub open spec fn credit_after_consumption(belly: nat, consumed: bool) -> nat {
    if consumed {
        belly + 1
    } else {
        belly
    }
}

/// The chain after one tick: the new head is pushed to the front; then, if
/// any growth credit is pending (including credit earned this very tick),
/// one credit is spent in place of the tail, otherwise the tail is removed.
pub open spec fn step_parts(
    parts: Seq<Position>,
    belly: nat,
    heading: Direction,
    foods: Seq<FoodItem>,
) -> Seq<Position> {
    let grown = seq![new_head(parts, heading)] + parts;
    let credit = credit_after_consumption(
        belly,
        first_consumed(foods, new_head(parts, heading)) is Some,
    );
    if credit > 0 {
        grown
    } else {
        grown.drop_last()
    }
}

/// The growth credit after one tick: raised by one on consumption, then
/// one credit is spent if any is pending.
pub open spec fn step_belly(
    parts: Seq<Position>,
    belly: nat,
    heading: Direction,
    foods: Seq<FoodItem>,
) -> nat {
    let credit = credit_after_consumption(
        belly,
        first_consumed(foods, new_head(parts, heading)) is Some,
    );
    if credit > 0 {
        (credit - 1) as nat
    } else {
        0
    }
}

/// What one tick reports: the identity of the consumed item, if any.
pub open spec fn step_outcome(
    parts: Seq<Position>,
    heading: Direction,
    foods: Seq<FoodItem>,
) -> StepResult {
    match first_consumed(foods, new_head(parts, heading)) {
        Some(item) => StepResult::Consumed(item.id),
        None => StepResult::Advanced,
    }
}

/// Owns the chain of occupied cells, head at the front and tail at the
/// back, and the pending growth credit. Cells of the chain need not be
/// distinct: self-overlap is permitted and not detected, and no wall or
/// self collision ends the game.
pub struct SnakeEngine {
    pub parts: VecDeque<Position>,
    pub belly: usize,
}

impl SnakeEngine {
    /// The chain always holds at least its head.
    pub open spec fn wf(self) -> bool {
        self.parts@.len() > 0
    }

    /// A chain of one cell at the given start, with no pending growth.
    pub fn new(start: Position) -> (e: SnakeEngine)
        ensures
            e.wf(),
            e.parts@ == seq![start],
            e.belly == 0,
    {
        let mut parts: VecDeque<Position> = VecDeque::new();
        parts.push_front(start);
        proof {
            assert(parts@ == seq![start]);
        }
        SnakeEngine { parts, belly: 0 }
    }

    /// The board's starting chain: one cell just right of the center.
    pub fn at_center(width: usize, height: usize) -> (e: SnakeEngine)
        requires
            width / 2 + 1 <= usize::MAX,
        ensures
            e.wf(),
            e.parts@ == seq![
                (Position { x: (width / 2 + 1) as usize, y: (height / 2) as usize }),
            ],
            e.belly == 0,
    {
        SnakeEngine::new(Position { x: width / 2 + 1, y: height / 2 })
    }

    /// The cell the chain's head occupies.
    pub fn head(&self) -> (p: Position)
        requires
            self.wf(),
        ensures
            p == self.parts@[0],
    {
        self.parts[0]
    }

    /// The chain's current length.
    pub fn len(&self) -> (n: usize)
        ensures
            n == self.parts@.len(),
    {
        self.parts.len()
    }

    /// One simulation tick: advance the head one cell in `heading`, consume
    /// the first food item lying on the new head if any, then spend one
    /// growth credit or, with none pending, drop the tail. Reports which
    /// food identity was consumed, for the spawner to act on.
    pub fn step(&mut self, heading: Direction, foods: &Vec<FoodItem>) -> (r: StepResult)
        requires
            old(self).wf(),
            old(self).belly < usize::MAX,
        ensures
            final(self).wf(),
            final(self).parts@ == step_parts(
                old(self).parts@,
                old(self).belly as nat,
                heading,
                foods@,
            ),
            final(self).belly as nat == step_belly(
                old(self).parts@,
                old(self).belly as nat,
                heading,
                foods@,
            ),
            r == step_outcome(old(self).parts@, heading, foods@),
    {
        let front = self.parts[0];
        let new_position = heading.mov(&front);
        self.parts.push_front(new_position);

        let mut i: usize = 0;
        let mut found: Option<u64> = None;
        while i < foods.len()
            invariant_except_break
                0 <= i <= foods@.len(),
                found is None,
                first_consumed(foods@, new_position) == first_match_from(
                    foods@,
                    new_position,
                    i as int,
                ),
            ensures
                match found {
                    Some(id) => first_consumed(foods@, new_position) matches Some(item)
                        && item.id == id,
                    None => first_consumed(foods@, new_position) is None,
                },
            decreases foods@.len() - i,
        {
            if foods[i].pos == new_position {
                found = Some(foods[i].id);
                break ;
            }
            i = i + 1;
        }

        let r = match found {
            Some(id) => {
                self.belly = self.belly + 1;
                StepResult::Consumed(id)
            },
            None => StepResult::Advanced,
        };

        if self.belly > 0 {
            self.belly = self.belly - 1;
        } else {
            self.parts.pop_back();
            proof {
                let grown = seq![new_head(old(self).parts@, heading)] + old(self).parts@;
                assert(self.parts@ == grown.drop_last());
            }
        }
        r
    }

    /// The occupied cells in order, head first.
    pub fn cells(&self) -> (r: Vec<Position>)
        ensures
            r@.len() == self.parts@.len(),
            forall|i: int| 0 <= i < r@.len() ==> r@[i] == self.parts@[i],
    {
        let mut r: Vec<Position> = Vec::new();
        let mut i: usize = 0;
        while i < self.parts.len()
            invariant
                0 <= i <= self.parts@.len(),
                r@.len() == i,
                forall|k: int| 0 <= k < i ==> r@[k] == self.parts@[k],
            decreases self.parts@.len() - i,
        {
            r.push(self.parts[i]);
            i = i + 1;
        }
        r
    }
}

/// A tick that consumes no food, taken with no growth credit pending,
/// leaves the chain length exactly as it was.
pub proof fn lemma_no_food_keeps_length(
    parts: Seq<Position>,
    heading: Direction,
    foods: Seq<FoodItem>,
)
    requires
        parts.len() > 0,
        first_consumed(foods, new_head(parts, heading)) is None,
    ensures
        step_parts(parts, 0, heading, foods).len() == parts.len(),
        step_belly(parts, 0, heading, foods) == 0,
{
}

/// A tick that consumes food raises the growth credit by one during the
/// consumption scan; the same tick's shrink phase spends one credit in
/// place of the tail, so the chain nets exactly one new cell and the
/// credit ends where it began.
pub proof fn lemma_food_step_nets_one(
    parts: Seq<Position>,
    belly: nat,
    heading: Direction,
    foods: Seq<FoodItem>,
)
    requires
        parts.len() > 0,
        first_consumed(foods, new_head(parts, heading)) is Some,
    ensures
        credit_after_consumption(belly, true) == belly + 1,
        step_parts(parts, belly, heading, foods).len() == parts.len() + 1,
        step_belly(parts, belly, heading, foods) == belly,
{
}

/// Across a consumption tick and the following no-consumption tick, the
/// chain grows by exactly one cell in total.
pub proof fn lemma_two_ticks_net_one(
    parts: Seq<Position>,
    heading1: Direction,
    foods1: Seq<FoodItem>,
    heading2: Direction,
    foods2: Seq<FoodItem>,
)
    requires
        parts.len() > 0,
        first_consumed(foods1, new_head(parts, heading1)) is Some,
        first_consumed(
            foods2,
            new_head(step_parts(parts, 0, heading1, foods1), heading2),
        ) is None,
    ensures
        step_parts(
            step_parts(parts, 0, heading1, foods1),
            step_belly(parts, 0, heading1, foods1),
            heading2,
            foods2,
        ).len() == parts.len() + 1,
{
}

/// A heading change between two ticks affects only the later tick: each
/// tick's new head follows the heading read at that tick alone, so a
/// change never retroactively alters a step already computed.
pub proof fn lemma_heading_change_deferred(
    parts: Seq<Position>,
    belly: nat,
    heading0: Direction,
    heading1: Direction,
    foods0: Seq<FoodItem>,
    foods1: Seq<FoodItem>,
)
    requires
        parts.len() > 0,
    ensures
        step_parts(parts, belly, heading0, foods0)[0] == move_spec(heading0, parts[0]),
        step_parts(
            step_parts(parts, belly, heading0, foods0),
            step_belly(parts, belly, heading0, foods0),
            heading1,
            foods1,
        )[0] == move_spec(heading1, move_spec(heading0, parts[0])),
{
    let first = step_parts(parts, belly, heading0, foods0);
    assert(first[0] == move_spec(heading0, parts[0]));
    assert(first.len() > 0);
    let second = step_parts(first, step_belly(parts, belly, heading0, foods0), heading1, foods1);
    assert(second[0] == move_spec(heading1, first[0]));
}

} // verus!
