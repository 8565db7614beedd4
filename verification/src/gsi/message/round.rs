//! The `round` section of a message.
use vstd::prelude::*;

verus! {

/// The phase of the current round.
#[derive(Clone, Copy, Debug, PartialEq, Eq, Structural)]
#[allow(non_camel_case_types)]
pub enum Phase {
    over,
    live,
    freezetime,
}

impl Default for Phase {
    fn default() -> (p: Phase)
        ensures
            p == Phase::over,
    {
        Phase::over
    }
}

/// How the bomb stands in the current round.
#[derive(Clone, Copy, Debug, PartialEq, Eq, Structural)]
#[allow(non_camel_case_types)]
pub enum Bomb {
    planted,
    exploded,
    defused,
}

/// The current round.
#[derive(Clone, Copy)]
pub struct Round {
    pub phase: Phase,
    pub bomb: Option<Bomb>,
    pub win_team: Option<super::Team>,
}

impl Default for Round {
    fn default() -> (r: Round)
        ensures
            r.phase == Phase::over,
            r.bomb is None,
            r.win_team is None,
    {
        Round { phase: Phase::default(), bomb: None, win_team: None }
    }
}

} // verus!
