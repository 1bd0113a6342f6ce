//! The arena grid: its dimensions and the integer position type.

use vstd::prelude::*;

verus! {

/// Number of playable columns; cells have `x` in `0 .. ARENA_WIDTH`.
pub const ARENA_WIDTH: u32 = 10;

/// Number of playable rows; cells have `y` in `0 .. ARENA_HEIGHT`.
pub const ARENA_HEIGHT: u32 = 10;

/// A cell of the grid. The type itself enforces no bounds; the movement
/// stage checks validity against the arena dimensions.
#[derive(Clone, Copy, PartialEq, Eq, Structural, Debug)]
pub struct Position {
    pub x: i32,
    pub y: i32,
}

/// A playable cell of the arena: the food spawner enumerates exactly these.
pub open spec fn in_arena(p: Position) -> bool {
    0 <= p.x < ARENA_WIDTH && 0 <= p.y < ARENA_HEIGHT
}

/// The bound the movement stage accepts without raising game over. The
/// upper comparison is against the dimension itself, not dimension - 1,
/// so the head may occupy one column or row beyond the playable grid.
pub open spec fn within_walls(p: Position) -> bool {
    0 <= p.x <= ARENA_WIDTH && 0 <= p.y <= ARENA_HEIGHT
}

/// Whether `p` occurs among the positions of `v`.
pub fn contains_position(v: &Vec<Position>, p: Position) -> (r: bool)
    ensures
        r == v@.contains(p),
{
    let mut i: usize = 0;
    while i < v.len()
        invariant
            i <= v.len(),
            forall|k: int| 0 <= k < i ==> v@[k] != p,
        decreases v.len() - i,
    {
        if v[i] == p {
            proof {
                assert(v@[i as int] == p);
            }
            return true;
        }
        i = i + 1;
    }
    false
}

} // verus!
