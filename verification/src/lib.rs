//! Game-state tracking for a CS:GO scoreline monitor.
//!
//! The game sends "game state integration" (GSI) messages; [`game::state::State`]
//! folds each of them into a small summary of the match (mode, map, scores,
//! whether a round is live, when it is expected to end), which the web front
//! end reports.  The HTTP plumbing itself stays outside this library; the
//! decisions it takes (which reply, which files) are made here.
pub mod game;
pub mod gsi;
