//! A verified core for a grid-based snake game.
//!
//! The library models the whole simulation as plain data: a toroidal grid of
//! signed integer coordinates, a snake held as an ordered sequence of grid
//! positions (head first) with a facing direction, a set of live food
//! positions, and the position most recently vacated by the tail. Every rule
//! of the game - input resolution, movement with wraparound, self-collision,
//! eating, growth, and the full reset after a game over - is an executable
//! function with a contract stating exactly what it does.
//!
//! Drawing, input polling and tick scheduling are left to the embedding
//! program, which owns the loop and calls the tick functions in order.

pub mod snake;
pub mod food;

use vstd::prelude::*;

verus! {

/// A cell of the grid. Coordinates are signed; the movement step keeps the
/// head inside the arena by wraparound, so no bound is enforced here.
#[derive(Clone, Copy, PartialEq, Eq, Structural, Hash, Debug)]
pub struct Position {
    pub x: i32,
    pub y: i32,
}

/// Signal that the snake ran into its own body; consuming it resets the game.
#[derive(Clone, Copy, Debug)]
pub struct GameOverEvent;

} // verus!
