//! A grid-based snake game core: a chain of segments moves on a discrete
//! arena, eats spawned food to grow, and the run resets on collision with a
//! wall or with the chain itself.
//!
//! The game state machine — per-tick movement, collision detection, growth,
//! reset, and the food-spawning policy — is verified. Rendering and input
//! device polling are left to a host program, which hands the core an
//! already-resolved key state each frame.

pub mod food;
pub mod game;
pub mod grid;
pub mod snake;

use vstd::prelude::*;

verus! {

} // verus!
