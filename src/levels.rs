//! The levels' starting positions, and the game modes that the surrounding
//! program steps through.
pub mod level1;
pub mod level2;
pub mod level3;
pub mod menu;

use vstd::prelude::*;

verus! {

/// A playable level.
#[derive(Clone, Copy, Debug, PartialEq, Eq, Structural)]
pub enum Level {
    Level1,
    Level2,
    Level3,
}

/// What the game is showing: the menu, or a level being played.
#[derive(Clone, Copy, Debug, PartialEq, Eq, Structural)]
pub enum GameMode {
    Menu,
    Play(Level),
}

} // verus!
