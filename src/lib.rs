//! Pity-aware odds and roll transitions of a gacha pull system.
//!
//! Probabilities are held as integers in parts per million, and the odds that
//! pity produces are exact fractions, so every boundary a draw is compared with
//! is known without rounding.

pub mod odds;
pub mod roll;
pub mod source;
pub mod state;
