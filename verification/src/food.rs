//! Food items and their spawner: one edible cell with an identity, retired
//! on consumption and replaced by a fresh item at a random cell.

use rand::Rng;
use vstd::prelude::*;
use crate::grid::Position;

verus! {

/// The side length of the square region food respawns into: a fresh item's
/// coordinates are drawn uniformly from `[0, RESPAWN_RANGE)`. The range is
/// fixed, independent of the board dimensions held by the game state.
pub const RESPAWN_RANGE: usize = 10;

/// One edible cell. The identity `id` distinguishes this item from every
/// other item the spawner has ever created, so consumption can retire
/// exactly the matched item.
#[derive(Clone, Copy, Debug, PartialEq, Eq, Structural)]
pub struct FoodItem {
    pub id: u64,
    pub pos: Position,
}

/// Whether some active item carries the identity `id`.
pub open spec fn contains_id(items: Seq<FoodItem>, id: u64) -> bool {
    exists|i: int| 0 <= i < items.len() && items[i].id == id
}

/// The index of the item carrying `id`; meaningful when identities are
/// distinct and `contains_id` holds.
pub open spec fn idx_of(items: Seq<FoodItem>, id: u64) -> int {
    choose|i: int| 0 <= i < items.len() && items[i].id == id
}

/// Owns the set of active food items and replaces a consumed item with a
/// fresh one. Identities are handed out from a counter that only grows,
/// so no identity is ever reused.
pub struct FoodSpawner {
    pub items: Vec<FoodItem>,
    pub next_id: u64,
}

impl FoodSpawner {
    /// Every active identity was handed out before `next_id`, and no two
    /// active items share an identity.
    pub open spec fn wf(self) -> bool {
        &&& forall|i: int| 0 <= i < self.items@.len() ==> self.items@[i].id < self.next_id
        &&& forall|i: int, j: int|
            0 <= i < j < self.items@.len() ==> self.items@[i].id != self.items@[j].id
    }

    /// Places the single starting item at a fixed offset from the board's
    /// center: one column right of the starting head, one row up.
    pub fn spawn_initial(width: usize, height: usize) -> (s: FoodSpawner)
        requires
            width / 2 + 2 <= usize::MAX,
            height / 2 + 1 <= usize::MAX,
        ensures
            s.wf(),
            s.items@.len() == 1,
            s.items@[0].id == 0,
            s.items@[0].pos == (Position {
                x: (width / 2 + 2) as usize,
                y: (height / 2 + 1) as usize,
            }),
            s.next_id == 1,
    {
        let pos = Position { x: width / 2 + 2, y: height / 2 + 1 };
        let mut items: Vec<FoodItem> = Vec::new();
        items.push(FoodItem { id: 0, pos });
        FoodSpawner { items, next_id: 1 }
    }

    /// Retires the item whose identity is `id` and spawns a replacement
    /// with a fresh identity at a random cell of the respawn region. The
    /// replacement may land under the chain or on another item: no
    /// occupancy check is made. Exactly one item is removed and exactly
    /// one added, so the active count is unchanged.
    pub fn on_consumed(&mut self, id: u64)
        requires
            old(self).wf(),
            contains_id(old(self).items@, id),
            old(self).next_id < u64::MAX,
        ensures
            final(self).wf(),
            final(self).next_id == old(self).next_id + 1,
            final(self).items@.len() == old(self).items@.len(),
            final(self).items@ == old(self).items@.remove(idx_of(old(self).items@, id)).push(
                final(self).items@.last(),
            ),
            final(self).items@.last().id == old(self).next_id,
            final(self).items@.last().pos.x < RESPAWN_RANGE,
            final(self).items@.last().pos.y < RESPAWN_RANGE,
    {
        let ghost orig = self.items@;
        let mut i: usize = 0;
        while i < self.items.len() && self.items[i].id != id
            invariant
                self.items@ == orig,
                contains_id(orig, id),
                0 <= i <= orig.len(),
                forall|k: int| 0 <= k < i ==> orig[k].id != id,
            decreases orig.len() - i,
        {
            i = i + 1;
        }
        proof {
            let w = choose|j: int| 0 <= j < orig.len() && orig[j].id == id;
            assert(i < orig.len() && orig[i as int].id == id);
            assert(idx_of(orig, id) == i as int) by {
                let c = idx_of(orig, id);
                assert(0 <= c < orig.len() && orig[c].id == id);
            }
        }
        let x = random_below(RESPAWN_RANGE);
        let y = random_below(RESPAWN_RANGE);
        let fresh = FoodItem { id: self.next_id, pos: Position { x, y } };
        self.items.remove(i);
        self.items.push(fresh);
        self.next_id = self.next_id + 1;
        proof {
            let after = self.items@;
            let rem = orig.remove(idx_of(orig, id));
            assert forall|k: int| 0 <= k < rem.len() implies rem[k].id
                < old(self).next_id by {
                if k < idx_of(orig, id) {
                    assert(rem[k] == orig[k]);
                } else {
                    assert(rem[k] == orig[k + 1]);
                }
            }
            assert forall|a: int, b: int| 0 <= a < b < after.len() implies after[a].id
                != after[b].id by {
                if b < after.len() - 1 {
                    assert(after[a] == rem[a] && after[b] == rem[b]);
                    if a < idx_of(orig, id) {
                        assert(rem[a] == orig[a]);
                    } else {
                        assert(rem[a] == orig[a + 1]);
                    }
                    if b < idx_of(orig, id) {
                        assert(rem[b] == orig[b]);
                    } else {
                        assert(rem[b] == orig[b + 1]);
                    }
                } else {
                    assert(after[b].id == old(self).next_id);
                    assert(after[a] == rem[a]);
                }
            }
        }
    }

    /// The cells currently holding food, in creation order.
    pub fn positions(&self) -> (r: Vec<Position>)
        ensures
            r@.len() == self.items@.len(),
            forall|i: int| 0 <= i < r@.len() ==> r@[i] == self.items@[i].pos,
    {
        let mut r: Vec<Position> = Vec::new();
        let mut i: usize = 0;
        while i < self.items.len()
            invariant
                0 <= i <= self.items@.len(),
                r@.len() == i,
                forall|k: int| 0 <= k < i ==> r@[k] == self.items@[k].pos,
            decreases self.items@.len() - i,
        {
            r.push(self.items[i].pos);
            i = i + 1;
        }
        r
    }
}

/// A respawned item's identity is fresh: it differs from the identity of
/// every item that was active when it was drawn.
pub proof fn lemma_fresh_identity(items: Seq<FoodItem>, next_id: u64)
    requires
        forall|i: int| 0 <= i < items.len() ==> items[i].id < next_id,
    ensures
        forall|i: int| 0 <= i < items.len() ==> items[i].id != next_id,
{
}

/// Consumption removes exactly one item and adds exactly one, so the
/// active food count is invariant: in the single-food configuration it
/// stays one across any number of consumptions.
pub proof fn lemma_consumption_keeps_count(items: Seq<FoodItem>, i: int, fresh: FoodItem)
    requires
        0 <= i < items.len(),
    ensures
        items.remove(i).push(fresh).len() == items.len(),
{
}

/// Relies on rand: `thread_rng().gen_range(0..bound)` returns a value of
/// the range, hence below `bound`; rand panics on an empty range, so the
/// bound must be positive. Nothing more is assumed of the draw: any value
/// below the bound may come back, on any call.
#[verifier::external_body]
fn random_below(bound: usize) -> (r: usize)
    requires
        0 < bound,
    ensures
        r < bound,
{
    rand::thread_rng().gen_range(0..bound)
}

} // verus!
