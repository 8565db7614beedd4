//! The tracked state of the game, and the clock it is measured with.
pub mod clock;
pub mod state;
