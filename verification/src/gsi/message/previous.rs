//! The `previously` section of a message: the values that changed, as they
//! were before the change.
use vstd::prelude::*;

verus! {

/// The provider as it was.
#[derive(Clone)]
pub struct Provider {
    pub steamid: Option<String>,
    pub timestamp: Option<u32>,
}

impl Default for Provider {
    fn default() -> (p: Provider)
        ensures
            p.steamid is None,
            p.timestamp is None,
    {
        Provider { steamid: None, timestamp: None }
    }
}

/// The activity as it was.
#[derive(Clone, Copy, Debug)]
#[allow(non_camel_case_types)]
pub enum Activity {
    menu,
    playing,
    textinput,
}

/// The team as it was.
#[derive(Clone, Copy, Debug, PartialEq, Eq, Structural)]
#[allow(non_camel_case_types)]
pub enum Team {
    CT,
    T,
}

/// The player as it was.
#[derive(Clone)]
pub struct Player {
    pub steamid: Option<String>,
    pub team: Option<Team>,
    pub activity: Option<Activity>,
}

impl Default for Player {
    fn default() -> (p: Player)
        ensures
            p.steamid is None,
            p.team is None,
            p.activity is None,
    {
        Player { steamid: None, team: None, activity: None }
    }
}

/// The round as it was.  `bomb` is present when the bomb's state changed.
#[derive(Clone)]
pub struct Round {
    pub phase: Option<super::round::Phase>,
    pub bomb: Option<String>,
}

impl Default for Round {
    fn default() -> (r: Round)
        ensures
            r.phase is None,
            r.bomb is None,
    {
        Round { phase: None, bomb: None }
    }
}

/// The values that changed since the previous message.
#[derive(Clone)]
pub struct Message {
    pub provider: Option<Provider>,
    pub player: Option<Player>,
    pub round: Option<Round>,
}

impl Default for Message {
    fn default() -> (m: Message)
        ensures
            m.provider is None,
            m.player is None,
            m.round is None,
    {
        Message { provider: None, player: None, round: None }
    }
}

} // verus!
