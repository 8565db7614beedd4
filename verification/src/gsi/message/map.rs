//! The `map` section of a message.
use vstd::prelude::*;

verus! {

/// The phase of the match on the map.
#[derive(Clone, Copy, Debug, PartialEq, Eq, Structural)]
#[allow(non_camel_case_types)]
pub enum Phase {
    live,
    gameover,
    warmup,
    intermission,
}

impl Default for Phase {
    fn default() -> (p: Phase)
        ensures
            p == Phase::gameover,
    {
        Phase::gameover
    }
}

/// A side's standing on the map.
#[derive(Clone, Copy)]
pub struct Team {
    pub score: u8,
}

impl Default for Team {
    fn default() -> (t: Team)
        ensures
            t.score == 0,
    {
        Team { score: 0 }
    }
}

/// The map being played.
#[derive(Clone)]
pub struct GameMap {
    pub mode: super::Mode,
    pub name: String,
    pub phase: Phase,
    pub team_ct: Team,
    pub team_t: Team,
}

impl Default for GameMap {
    fn default() -> (m: GameMap)
        ensures
            m.mode == super::Mode::custom,
            m.name@ == Seq::<char>::empty(),
            m.phase == Phase::gameover,
            m.team_ct.score == 0,
            m.team_t.score == 0,
    {
        GameMap {
            mode: super::Mode::default(),
            name: String::new(),
            phase: Phase::default(),
            team_ct: Team::default(),
            team_t: Team::default(),
        }
    }
}

} // verus!
