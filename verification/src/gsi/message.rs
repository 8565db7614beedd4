//! The messages that the game posts, as the library sees them.
//!
//! Field names follow the JSON that the game sends; decoding that JSON is done
//! by the application around the library.
pub mod added;
pub mod map;
pub mod previous;
pub mod round;

use vstd::prelude::*;

verus! {

/// Why a state is asked to update.
pub enum UpdateReason {
    /// The report was fetched: refresh what is known of the installed config.
    Fetch,
    /// The config was (re)installed: what is known of it is stale.
    Update,
    /// The game posted a message.
    Data(Message),
}

/// Something that takes updates from the request handlers.
pub trait TakesUpdates: Send {
    fn update(&mut self, data: &UpdateReason);
}

/// Who sent the message, and when (seconds since the Unix epoch).
#[derive(Clone)]
pub struct Provider {
    pub steamid: String,
    pub timestamp: u32,
}

impl Default for Provider {
    fn default() -> (p: Provider)
        ensures
            p.steamid@ == Seq::<char>::empty(),
            p.timestamp == 0,
    {
        Provider { steamid: String::new(), timestamp: 0 }
    }
}

/// What the player is doing.
#[derive(Clone, Copy, Debug)]
#[allow(non_camel_case_types)]
pub enum Activity {
    menu,
    playing,
    textinput,
}

impl Activity {
    /// The name under which the activity is reported.
    pub fn label(&self) -> (s: &'static str)
        ensures
            s@ == activity_label(*self),
    {
        match self {
            Activity::menu => "menu",
            Activity::playing => "playing",
            Activity::textinput => "textinput",
        }
    }
}

pub open spec fn activity_label(a: Activity) -> Seq<char> {
    match a {
        Activity::menu => "menu"@,
        Activity::playing => "playing"@,
        Activity::textinput => "textinput"@,
    }
}

/// A side of the match.
#[derive(Clone, Copy, Debug, PartialEq, Eq, Structural)]
#[allow(non_camel_case_types)]
pub enum Team {
    CT,
    T,
}

impl Team {
    /// The name under which the team is reported.
    pub fn label(&self) -> (s: &'static str)
        ensures
            s@ == team_label(*self),
    {
        match self {
            Team::CT => "CT",
            Team::T => "T",
        }
    }
}

pub open spec fn team_label(t: Team) -> Seq<char> {
    match t {
        Team::CT => "CT"@,
        Team::T => "T"@,
    }
}

/// The player whose client sends the messages.
#[derive(Clone)]
pub struct Player {
    pub steamid: String,
    pub team: Option<Team>,
    pub activity: Option<Activity>,
}

impl Default for Player {
    fn default() -> (p: Player)
        ensures
            p.steamid@ == Seq::<char>::empty(),
            p.team is None,
            p.activity is None,
    {
        Player { steamid: String::new(), team: None, activity: None }
    }
}

/// The game mode of the map being played.
#[derive(Clone, Copy, Debug, PartialEq, Eq, Structural)]
#[allow(non_camel_case_types)]
pub enum Mode {
    casual,
    competitive,
    gungametrbomb,
    gungameprogressive,
    deathmatch,
    custom,
}

impl Default for Mode {
    fn default() -> (m: Mode)
        ensures
            m == Mode::custom,
    {
        Mode::custom
    }
}

impl Mode {
    /// The name under which the mode is reported, as the game's menus show it.
    pub fn label(&self) -> (s: &'static str)
        ensures
            s@ == mode_label(*self),
    {
        match self {
            Mode::casual => "Casual",
            Mode::competitive => "Competitive",
            Mode::gungametrbomb => "Demolition",
            Mode::gungameprogressive => "Arms Race",
            Mode::deathmatch => "Deathmatch",
            Mode::custom => "Custom",
        }
    }
}

pub open spec fn mode_label(m: Mode) -> Seq<char> {
    match m {
        Mode::casual => "Casual"@,
        Mode::competitive => "Competitive"@,
        Mode::gungametrbomb => "Demolition"@,
        Mode::gungameprogressive => "Arms Race"@,
        Mode::deathmatch => "Deathmatch"@,
        Mode::custom => "Custom"@,
    }
}

/// One message of the game.
#[derive(Clone)]
pub struct Message {
    pub provider: Provider,
    pub map: Option<map::GameMap>,
    pub round: Option<round::Round>,
    pub player: Player,
    pub previously: Option<previous::Message>,
    pub added: Option<added::Message>,
}

impl Default for Message {
    fn default() -> (m: Message)
        ensures
            m.provider.steamid@ == Seq::<char>::empty(),
            m.provider.timestamp == 0,
            m.map is None,
            m.round is None,
            m.player.steamid@ == Seq::<char>::empty(),
            m.player.team is None,
            m.player.activity is None,
            m.previously is None,
            m.added is None,
    {
        Message {
            provider: Provider::default(),
            map: None,
            round: None,
            player: Player::default(),
            previously: None,
            added: None,
        }
    }
}

} // verus!
