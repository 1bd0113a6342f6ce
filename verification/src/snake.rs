//! The snake itself: its facing direction, its head state, the ordered
//! chain of body-segment positions, and the per-frame input selection.

use vstd::prelude::*;

use crate::grid::Position;

verus! {

/// One of the four movement directions.
#[derive(Clone, Copy, PartialEq, Eq, Structural, Debug)]
pub enum Direction {
    Up,
    Down,
    Left,
    Right,
}

/// The direction opposite to `d`: Up and Down swap, Left and Right swap.
pub open spec fn opposite_of(d: Direction) -> Direction {
    match d {
        Direction::Up => Direction::Down,
        Direction::Down => Direction::Up,
        Direction::Left => Direction::Right,
        Direction::Right => Direction::Left,
    }
}

impl Direction {
    /// The opposite direction; reversing into it is forbidden by the
    /// direction-update stage.
    pub fn opposite(&self) -> (r: Direction)
        ensures
            r == opposite_of(*self),
    {
        match self {
            Direction::Up => Direction::Down,
            Direction::Down => Direction::Up,
            Direction::Left => Direction::Right,
            Direction::Right => Direction::Left,
        }
    }
}

/// Taking the opposite of the opposite of any direction gives the
/// direction back: `opposite_of` is an involution.
pub proof fn lemma_opposite_involutive(d: Direction)
    ensures
        opposite_of(opposite_of(d)) == d,
{
}

/// The head's mutable state. `moved` becomes true once the head has
/// advanced at least one tick since the last accepted direction change;
/// it gates direction changes so the snake cannot turn twice (and thus
/// reverse through its own body) within one movement tick.
#[derive(Clone, Copy, PartialEq, Eq, Structural, Debug)]
pub struct SnakeHead {
    pub direction: Direction,
    pub moved: bool,
}

/// The ordered chain of the snake's cells: index 0 is the head, the
/// following indices the body segments in head-to-tail order.
#[derive(Clone, Debug)]
pub struct SnakeSegments(pub Vec<Position>);

/// The cell vacated by the last segment during the most recent movement
/// tick, or `None` before the first move; the growth stage places a new
/// segment there.
#[derive(Clone, Copy, Debug)]
pub struct LastTailPosition(pub Option<Position>);

/// The direction most recently requested by input, refreshed every frame
/// and consumed (though not necessarily applied) by the direction-update
/// stage.
#[derive(Clone, Copy, Debug)]
pub struct LastInputDirection(pub Option<Direction>);

/// The resolved state of the eight movement keys for one frame: a primary
/// and an alternate key per direction.
#[derive(Clone, Copy, PartialEq, Eq, Structural, Debug)]
pub struct KeyInput {
    pub left_primary: bool,
    pub right_primary: bool,
    pub up_primary: bool,
    pub down_primary: bool,
    pub left_alt: bool,
    pub right_alt: bool,
    pub up_alt: bool,
    pub down_alt: bool,
}

/// A key state with no movement key active.
pub open spec fn no_keys() -> KeyInput {
    KeyInput {
        left_primary: false,
        right_primary: false,
        up_primary: false,
        down_primary: false,
        left_alt: false,
        right_alt: false,
        up_alt: false,
        down_alt: false,
    }
}

impl Default for KeyInput {
    /// A key state with no movement key active.
    fn default() -> (k: KeyInput)
        ensures
            k == no_keys(),
    {
        KeyInput {
            left_primary: false,
            right_primary: false,
            up_primary: false,
            down_primary: false,
            left_alt: false,
            right_alt: false,
            up_alt: false,
            down_alt: false,
        }
    }
}

/// The direction the input stage buffers: the first active key in the
/// fixed priority order left, right, up, down (primary keys before
/// alternates), or the head's current direction when no movement key is
/// active.
pub open spec fn chosen_direction(keys: KeyInput, current: Direction) -> Direction {
    if keys.left_primary {
        Direction::Left
    } else if keys.right_primary {
        Direction::Right
    } else if keys.up_primary {
        Direction::Up
    } else if keys.down_primary {
        Direction::Down
    } else if keys.left_alt {
        Direction::Left
    } else if keys.right_alt {
        Direction::Right
    } else if keys.up_alt {
        Direction::Up
    } else if keys.down_alt {
        Direction::Down
    } else {
        current
    }
}

} // verus!
