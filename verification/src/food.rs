//! Food objects and the helpers of the spawning policy: enumerating the
//! arena's cells and drawing one cell at random.

use rand::seq::IteratorRandom;
use vstd::arithmetic::div_mod::{lemma_fundamental_div_mod, lemma_fundamental_div_mod_converse};
use vstd::prelude::*;

use crate::grid::{in_arena, Position, ARENA_HEIGHT, ARENA_WIDTH};

verus! {

/// A food item: a position-tagged object with no other state. Several
/// food objects may coexist; each is eaten individually.
#[derive(Clone, Copy, PartialEq, Eq, Structural, Debug)]
pub struct Food {
    pub position: Position,
}

/// The cell at index `k` of the enumeration of the arena: column-major,
/// `y` varying fastest.
pub open spec fn cell_at(k: int) -> Position {
    Position { x: (k / (ARENA_HEIGHT as int)) as i32, y: (k % (ARENA_HEIGHT as int)) as i32 }
}

/// Every cell of the arena grid, exactly once, in a fixed order.
pub fn gen_all_positions() -> (r: Vec<Position>)
    ensures
        r@.len() == ARENA_WIDTH * ARENA_HEIGHT,
        forall|k: int| 0 <= k < r@.len() ==> #[trigger] r@[k] == cell_at(k),
        forall|k: int| 0 <= k < r@.len() ==> in_arena(#[trigger] r@[k]),
        forall|p: Position| in_arena(p) ==> r@.contains(p),
        forall|k1: int, k2: int| 0 <= k1 < k2 < r@.len() ==> r@[k1] != r@[k2],
{
    let mut positions: Vec<Position> = Vec::new();
    let mut x: u32 = 0;
    while x < ARENA_WIDTH
        invariant
            x <= ARENA_WIDTH,
            positions@.len() == x * ARENA_HEIGHT,
            forall|k: int| 0 <= k < positions@.len() ==> #[trigger] positions@[k] == cell_at(k),
            forall|k: int| 0 <= k < positions@.len() ==> in_arena(#[trigger] positions@[k]),
        decreases ARENA_WIDTH - x,
    {
        let mut y: u32 = 0;
        while y < ARENA_HEIGHT
            invariant
                x < ARENA_WIDTH,
                y <= ARENA_HEIGHT,
                positions@.len() == x * ARENA_HEIGHT + y,
                forall|k: int| 0 <= k < positions@.len() ==> #[trigger] positions@[k] == cell_at(
                    k,
                ),
                forall|k: int| 0 <= k < positions@.len() ==> in_arena(#[trigger] positions@[k]),
            decreases ARENA_HEIGHT - y,
        {
            let q = Position { x: x as i32, y: y as i32 };
            proof {
                lemma_fundamental_div_mod_converse(
                    x * ARENA_HEIGHT + y,
                    ARENA_HEIGHT as int,
                    x as int,
                    y as int,
                );
                assert(cell_at(x * ARENA_HEIGHT + y) == q);
            }
            positions.push(q);
            y = y + 1;
        }
        x = x + 1;
    }
    proof {
        assert forall|p: Position| in_arena(p) implies positions@.contains(p) by {
            let k = p.x * (ARENA_HEIGHT as int) + p.y;
            lemma_fundamental_div_mod_converse(k, ARENA_HEIGHT as int, p.x as int, p.y as int);
            assert(positions@[k] == p);
        }
        assert forall|k1: int, k2: int|
            0 <= k1 < k2 < positions@.len() implies positions@[k1] != positions@[k2] by {
            lemma_fundamental_div_mod(k1, ARENA_HEIGHT as int);
            lemma_fundamental_div_mod(k2, ARENA_HEIGHT as int);
        }
    }
    positions
}

/// Relies on rand's `IteratorRandom::choose`: drawing from an iterator
/// returns `None` exactly when the iterator is empty, and otherwise one
/// of the iterator's own items, picked at random.
#[verifier::external_body]
pub(crate) fn choose_cell(cells: &Vec<Position>) -> (r: Option<Position>)
    ensures
        r is Some <==> cells@.len() > 0,
        r matches Some(p) ==> cells@.contains(p),
{
    cells.iter().copied().choose(&mut rand::thread_rng())
}

} // verus!
