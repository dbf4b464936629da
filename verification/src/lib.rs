//! Core of a Mastermind-style code-breaking game: a hidden four-slot color
//! sequence is scored against repeated four-slot guesses until the player
//! matches it exactly or runs out of attempts.

use vstd::prelude::*;

pub mod guess;
pub mod scoring;
pub mod draw;
pub mod page_renderer;
pub mod game;

verus! {

/// Board cells left between two fields when laying out the window grid.
pub const SPACING: i32 = 3;

/// Side length of one color field, in board cells.
pub const FIELD_SIZE: i32 = 2;

} // verus!
