//! What is known of the game, kept up to date from the game's messages.
use vstd::prelude::*;

use super::clock::{
    decimal, format_epoch_seconds, now_seconds, stated_seconds_bound, tm_from_unix_timestamp,
    within_stated_bound,
    InvalidTimestamp,
};
use crate::gsi::message::round::Phase as RoundPhase;
use crate::gsi::message::{Message, Mode, TakesUpdates, Team, UpdateReason};

verus! {

/// How long the bomb takes to explode once planted, in seconds.
pub const BOMB_TIMER_SECONDS: i64 = 40;

/// The round time, one minute and fifty-five seconds, in seconds.  A round
/// that started without the bomb being planted is expected to end after the
/// round time and the bomb timer.
pub const ROUND_TIME_SECONDS: i64 = 115;

/// The two sides' scores on the current map.
#[derive(Clone, Copy)]
pub struct Scores {
    ct: u8,
    t: u8,
}

impl Scores {
    pub closed spec fn ct_score(&self) -> u8 {
        self.ct
    }

    pub closed spec fn t_score(&self) -> u8 {
        self.t
    }

    /// The counter-terrorists' score.
    pub fn ct(&self) -> (s: u8)
        ensures
            s == self.ct_score(),
    {
        self.ct
    }

    /// The terrorists' score.
    pub fn t(&self) -> (s: u8)
        ensures
            s == self.t_score(),
    {
        self.t
    }
}

/// The record of which version of the game's GSI config is installed, and of
/// which one this build installs.  It is kept beside the game state, told to
/// refresh itself on every report and message, and told that it is stale when
/// the config was reinstalled.
///
/// Each implementation says, through the three spec functions, what its own
/// operations give; they are relations, as a refresh may read the disk.  The
/// state's contracts speak of the record through them.
pub trait GsiVersions: Sized {
    /// `self` is what `new` may give.
    spec fn is_fresh(self) -> bool;

    /// `next` is what `update` may turn `self` into.
    spec fn refreshes_to(self, next: Self) -> bool;

    /// `next` is what `invalidate` may turn `self` into.
    spec fn invalidates_to(self, next: Self) -> bool;

    fn new() -> (v: Self)
        ensures
            v.is_fresh(),
    ;

    fn update(&mut self)
        ensures
            old(self).refreshes_to(*final(self)),
    ;

    fn invalidate(&mut self)
        ensures
            old(self).invalidates_to(*final(self)),
    ;
}

/// The game state as the contracts speak of it: times are seconds since the
/// epoch, strings are their characters.
#[verifier::ext_equal]
pub struct GameView {
    pub last_up: int,
    pub in_game: bool,
    pub team: Option<Team>,
    pub gamemode: Mode,
    pub ct_score: u8,
    pub t_score: u8,
    pub round_start: Option<int>,
    pub round_live: bool,
    pub bomb_down: bool,
    pub map: Seq<char>,
}

/// The message reports a map and a round, and its `previously` section shows
/// the round's phase changing from something other than live while the
/// round is now live: a round has just started.
pub open spec fn round_went_live(m: Message) -> bool {
    &&& m.map is Some
    &&& m.round matches Some(r) && r.phase == RoundPhase::live
    &&& m.previously matches Some(p) && p.round matches Some(pr) && pr.phase matches Some(
        pp,
    ) && pp != RoundPhase::live
}

/// The message reports a map and a round, and its `previously` section shows
/// that the bomb's state changed.
pub open spec fn bomb_change_reported(m: Message) -> bool {
    &&& m.map is Some
    &&& m.round is Some
    &&& m.previously matches Some(p) && p.round matches Some(pr) && pr.bomb is Some
}

/// The message's `added` section shows the bomb as newly planted.
pub open spec fn bomb_planted(m: Message) -> bool {
    m.added matches Some(a) && a.round matches Some(ar) && ar.bomb == Some(true)
}

/// The message comes from the player's own client and names the player's team.
pub open spec fn reports_own_team(m: Message) -> bool {
    m.provider.steamid@ == m.player.steamid@ && m.player.team is Some
}

/// How long after `round_start` the round is expected to end.
pub open spec fn round_length(bomb_down: bool) -> int {
    if bomb_down {
        BOMB_TIMER_SECONDS as int
    } else {
        ROUND_TIME_SECONDS + BOMB_TIMER_SECONDS
    }
}

impl GameView {
    /// The state before any message.
    pub open spec fn initial() -> GameView {
        GameView {
            last_up: 0,
            in_game: false,
            team: None,
            gamemode: Mode::custom,
            ct_score: 0,
            t_score: 0,
            round_start: None,
            round_live: false,
            bomb_down: false,
            map: Seq::empty(),
        }
    }

    /// What every state keeps: only a competitive match counts as being in
    /// game, and every point in time is a message stamp (or the epoch).
    pub open spec fn consistent(self) -> bool {
        &&& self.in_game ==> self.gamemode == Mode::competitive
        &&& 0 <= self.last_up <= u32::MAX
        &&& self.round_start matches Some(s) ==> 0 <= s <= u32::MAX
    }

    /// The state after the message `m`, whose stamp read as `stamp` (`None`
    /// where it could not be read; the last update time then stays).
    pub open spec fn after_message(self, m: Message, stamp: Option<int>) -> GameView {
        let last_up = match stamp {
            Some(t) => t,
            None => self.last_up,
        };
        let on_map = match m.map {
            Some(map) => GameView {
                last_up,
                in_game: map.mode == Mode::competitive,
                gamemode: map.mode,
                ct_score: map.team_ct.score,
                t_score: map.team_t.score,
                map: map.name@,
                round_live: m.round matches Some(r) && r.phase == RoundPhase::live,
                round_start: if round_went_live(m) {
                    Some(last_up)
                } else {
                    self.round_start
                },
                bomb_down: if bomb_change_reported(m) {
                    false
                } else {
                    self.bomb_down
                },
                ..self
            },
            None => GameView { last_up, in_game: false, ..self },
        };
        GameView {
            bomb_down: if bomb_planted(m) {
                true
            } else {
                on_map.bomb_down
            },
            round_start: if bomb_planted(m) {
                Some(last_up)
            } else {
                on_map.round_start
            },
            team: if reports_own_team(m) {
                m.player.team
            } else {
                self.team
            },
            ..on_map
        }
    }

    /// When the current round is expected to end, if one was seen starting.
    pub open spec fn round_end(self) -> Option<int> {
        match self.round_start {
            Some(s) => Some(s + round_length(self.bomb_down)),
            None => None,
        }
    }
}

/// The stamp of a message as the state takes it.
pub open spec fn stamp_seconds(stamp: Result<i64, InvalidTimestamp>) -> Option<int> {
    match stamp {
        Ok(t) => Some(t as int),
        Err(_) => None,
    }
}

/// Folding the same message in twice leaves the game state as folding it in
/// once: a message the game repeats changes nothing more.
pub proof fn lemma_message_idempotent(v: GameView, m: Message, stamp: Option<int>)
    ensures
        v.after_message(m, stamp).after_message(m, stamp) == v.after_message(m, stamp),
{
    assert(v.after_message(m, stamp).after_message(m, stamp) =~= v.after_message(m, stamp));
}

/// A message that the state handles a second time (through `update`, which
/// reads its stamp as `message_stamp`) changes no game field the second time.
pub proof fn lemma_repeated_message_changes_no_game_field(v: GameView, m: Message)
    ensures
        v.after_message(m, message_stamp(m)).after_message(m, message_stamp(m))
            == v.after_message(m, message_stamp(m)),
{
    lemma_message_idempotent(v, m, message_stamp(m));
}

/// A message keeps a consistent state consistent, given a `u32` stamp.
pub proof fn lemma_message_keeps_consistency(v: GameView, m: Message, stamp: Option<int>)
    requires
        v.consistent(),
        stamp matches Some(t) ==> 0 <= t <= u32::MAX,
    ensures
        v.after_message(m, stamp).consistent(),
{
}

/// After a message the state is in game exactly when the message reports a
/// map played in competitive mode.
pub proof fn lemma_in_game_iff_competitive_map(v: GameView, m: Message, stamp: Option<int>)
    ensures
        v.after_message(m, stamp).in_game == (m.map matches Some(map) && map.mode
            == Mode::competitive),
{
}

/// Once the player's team is known, no message makes it unknown again.
pub proof fn lemma_team_stays_known(v: GameView, m: Message, stamp: Option<int>)
    requires
        v.team is Some,
    ensures
        v.after_message(m, stamp).team is Some,
{
}

/// A message without a map takes the state out of game and leaves the mode,
/// the map's name, the scores and the round as they were.
pub proof fn lemma_no_map_leaves_match(v: GameView, m: Message, stamp: Option<int>)
    requires
        m.map is None,
        !bomb_planted(m),
    ensures
        !v.after_message(m, stamp).in_game,
        v.after_message(m, stamp).gamemode == v.gamemode,
        v.after_message(m, stamp).map == v.map,
        v.after_message(m, stamp).ct_score == v.ct_score,
        v.after_message(m, stamp).t_score == v.t_score,
        v.after_message(m, stamp).round_live == v.round_live,
        v.after_message(m, stamp).round_start == v.round_start,
        v.after_message(m, stamp).bomb_down == v.bomb_down,
{
}

/// A message that reports the bomb planted, stamped `t`, makes the round end
/// expected at `t` plus the bomb timer.
pub proof fn lemma_plant_sets_round_end(v: GameView, m: Message, t: int)
    requires
        m.added matches Some(a) && a.round matches Some(ar) && ar.bomb == Some(true),
    ensures
        v.after_message(m, Some(t)).bomb_down,
        v.after_message(m, Some(t)).round_start == Some(t),
        v.after_message(m, Some(t)).round_end() == Some(t + 40),
{
}

/// A message that shows a round going live, stamped `t`, with no bomb down
/// after it (none was planted, and either none was down before or the message
/// reports that the bomb's state changed), makes the round end expected at
/// `t` plus the round time and the bomb timer.
pub proof fn lemma_round_start_sets_round_end(v: GameView, m: Message, t: int)
    requires
        round_went_live(m),
        !bomb_planted(m),
        bomb_change_reported(m) || !v.bomb_down,
    ensures
        v.after_message(m, Some(t)).round_live,
        v.after_message(m, Some(t)).round_end() == Some(
            t + ROUND_TIME_SECONDS + BOMB_TIMER_SECONDS,
        ),
{
}

/// A state that took a message stamped `t` is reported up until twenty
/// seconds after `t`, and down from then on.
pub proof fn lemma_up_after_message(v: GameView, m: Message, t: int, now: int)
    ensures
        (v.after_message(m, Some(t)).last_up > now - 20) == (now < t + 20),
{
}

/// What a report of the state holds; the application writes it out as JSON
/// (with the GSI versions and the settings beside it).
pub struct StateReport {
    /// A message came in during the last twenty seconds.
    pub up: bool,
    pub in_game: bool,
    pub team: Option<Team>,
    pub gamemode: Mode,
    pub scores: Scores,
    pub round_live: bool,
    /// When the current round is expected to end, as the decimal numeral of
    /// its seconds since the epoch.
    pub round_end: Option<String>,
    pub map: String,
}

/// Everything of a report that does not depend on the clock.
pub open spec fn report_shows(v: GameView, r: StateReport) -> bool {
    &&& r.in_game == v.in_game
    &&& r.team == v.team
    &&& r.gamemode == v.gamemode
    &&& r.scores.ct_score() == v.ct_score
    &&& r.scores.t_score() == v.t_score
    &&& r.round_live == v.round_live
    &&& r.map@ == v.map
    &&& match v.round_end() {
        Some(e) => if e < stated_seconds_bound() {
            r.round_end matches Some(s) && s@ == decimal(e as nat)
        } else {
            r.round_end is None
        },
        None => r.round_end is None,
    }
}

/// How the state takes the stamp of a message: as that many seconds after the
/// epoch, where the time library can hold it (always, on a 64-bit build).
pub open spec fn message_stamp(m: Message) -> Option<int> {
    if m.provider.timestamp < stated_seconds_bound() {
        Some(m.provider.timestamp as int)
    } else {
        None
    }
}

/// A message from the player's own client (the provider's and the player's
/// Steam ids agree) that names the player's team sets the team to that one,
/// whatever team was known before (sides switch at half time); any other
/// message leaves the team as it was.
pub proof fn lemma_team_follows_own_client(v: GameView, m: Message, stamp: Option<int>)
    ensures
        m.provider.steamid@ == m.player.steamid@ && m.player.team is Some ==> v.after_message(
            m,
            stamp,
        ).team == m.player.team,
        !(m.provider.steamid@ == m.player.steamid@ && m.player.team is Some) ==> v.after_message(
            m,
            stamp,
        ).team == v.team,
{
}

/// A message with a map sets the mode, the map's name and the two sides'
/// scores (CT from `team_ct`, T from `team_t`) to the map's; the state is in
/// game exactly when that mode is competitive, and a round is live exactly
/// when the message reports a round in the live phase, whatever the mode.
pub proof fn lemma_map_message_sets_match(v: GameView, m: Message, stamp: Option<int>)
    requires
        m.map is Some,
    ensures
        v.after_message(m, stamp).gamemode == m.map->0.mode,
        v.after_message(m, stamp).map == m.map->0.name@,
        v.after_message(m, stamp).ct_score == m.map->0.team_ct.score,
        v.after_message(m, stamp).t_score == m.map->0.team_t.score,
        v.after_message(m, stamp).in_game == (m.map->0.mode == Mode::competitive),
        v.after_message(m, stamp).round_live == (m.round matches Some(r) && r.phase
            == RoundPhase::live),
{
}

/// A message whose stamp was read sets the last update time to it; one whose
/// stamp was not read leaves it.
pub proof fn lemma_stamp_sets_last_up(v: GameView, m: Message, stamp: Option<int>)
    ensures
        stamp matches Some(t) ==> v.after_message(m, stamp).last_up == t,
        stamp is None ==> v.after_message(m, stamp).last_up == v.last_up,
{
}

/// A message with a map and a round whose `previously` section shows the
/// bomb's state changing, and that does not report a new plant, leaves the
/// bomb no longer down.
pub proof fn lemma_bomb_change_clears_bomb(v: GameView, m: Message, stamp: Option<int>)
    requires
        m.map is Some,
        m.round is Some,
        m.previously matches Some(p) && p.round matches Some(pr) && pr.bomb is Some,
        !(m.added matches Some(a) && a.round matches Some(ar) && ar.bomb == Some(true)),
    ensures
        !v.after_message(m, stamp).bomb_down,
{
}

/// A message stamped `t` with a map and a live round, whose `previously`
/// section shows the round's phase as something other than live, starts the
/// round at `t`.
pub proof fn lemma_round_goes_live_at_stamp(v: GameView, m: Message, t: int)
    requires
        m.map is Some,
        m.round matches Some(r) && r.phase == RoundPhase::live,
        m.previously matches Some(p) && p.round matches Some(pr) && pr.phase matches Some(pp)
            && pp != RoundPhase::live,
    ensures
        v.after_message(m, Some(t)).round_start == Some(t),
        v.after_message(m, Some(t)).round_live,
{
}

/// A report shows the state as it is: whether it is in game, the team, the
/// mode, the CT score as CT and the T score as T (whatever the player's team),
/// whether a round is live (whatever the mode), the map's name, and the
/// expected end of the round: forty seconds after the round start when the
/// bomb is down, a hundred and fifty-five otherwise, written in decimal
/// (where the time library can hold it), and nothing without a round start.
pub proof fn lemma_report_shows_state(v: GameView, r: StateReport)
    requires
        report_shows(v, r),
    ensures
        r.in_game == v.in_game,
        r.team == v.team,
        r.gamemode == v.gamemode,
        r.scores.ct_score() == v.ct_score,
        r.scores.t_score() == v.t_score,
        r.round_live == v.round_live,
        r.map@ == v.map,
        v.round_start is None ==> r.round_end is None,
        v.round_start is Some && v.bomb_down && v.round_start->0 + 40 < stated_seconds_bound()
            ==> r.round_end is Some && r.round_end->0@ == decimal(
            (v.round_start->0 + 40) as nat,
        ),
        v.round_start is Some && !v.bomb_down && v.round_start->0 + 155 < stated_seconds_bound()
            ==> r.round_end is Some && r.round_end->0@ == decimal(
            (v.round_start->0 + 155) as nat,
        ),
{
}

/// After a message with a map, a report shows the map's CT and T scores as
/// CT and T, and a live round exactly when the message reports one.
pub proof fn lemma_report_after_map_message(
    v: GameView,
    m: Message,
    stamp: Option<int>,
    r: StateReport,
)
    requires
        m.map is Some,
        report_shows(v.after_message(m, stamp), r),
    ensures
        r.scores.ct_score() == m.map->0.team_ct.score,
        r.scores.t_score() == m.map->0.team_t.score,
        r.round_live == (m.round matches Some(x) && x.phase == RoundPhase::live),
        r.team == (if m.provider.steamid@ == m.player.steamid@ && m.player.team is Some {
            m.player.team
        } else {
            v.team
        }),
{
    lemma_map_message_sets_match(v, m, stamp);
    lemma_team_follows_own_client(v, m, stamp);
    lemma_report_shows_state(v.after_message(m, stamp), r);
}

/// The game fields of the state, whose consistency is kept as an invariant.
struct Game {
    last_up: i64,
    in_game: bool,
    team: Option<Team>,
    gamemode: Mode,
    scores: Scores,
    round_start: Option<i64>,
    round_live: bool,
    bomb_down: bool,
    map: String,
}

impl View for Game {
    type V = GameView;

    closed spec fn view(&self) -> GameView {
        GameView {
            last_up: self.last_up as int,
            in_game: self.in_game,
            team: self.team,
            gamemode: self.gamemode,
            ct_score: self.scores.ct,
            t_score: self.scores.t,
            round_start: match self.round_start {
                Some(s) => Some(s as int),
                None => None,
            },
            round_live: self.round_live,
            bomb_down: self.bomb_down,
            map: self.map@,
        }
    }
}

impl Game {
    #[verifier::type_invariant]
    closed spec fn well_formed(self) -> bool {
        self@.consistent()
    }

    fn initial() -> (g: Game)
        ensures
            g@ == GameView::initial(),
    {
        Game {
            last_up: 0,
            in_game: false,
            team: None,
            gamemode: Mode::default(),
            scores: Scores { ct: 0, t: 0 },
            round_start: None,
            round_live: false,
            bomb_down: false,
            map: String::new(),
        }
    }

    fn apply_message(&mut self, msg: &Message, stamp: Result<i64, InvalidTimestamp>)
        requires
            stamp matches Ok(t) ==> 0 <= t <= u32::MAX,
        ensures
            final(self)@ == old(self)@.after_message(*msg, stamp_seconds(stamp)),
            final(self)@.consistent(),
    {
        proof {
            use_type_invariant(&*self);
        }
        if let Ok(last_up) = stamp {
            self.last_up = last_up;
        }
        match &msg.map {
            Some(map) => {
                // Leave the game first, so that no moment has the state in
                // game with a mode other than competitive (the invariant).
                self.in_game = false;
                self.gamemode = map.mode;
                self.map = map.name.clone();
                self.scores.ct = map.team_ct.score;
                self.scores.t = map.team_t.score;
                self.in_game = self.gamemode == Mode::competitive;
                match &msg.round {
                    Some(round) => {
                        let live_phase = RoundPhase::live;
                        self.round_live = round.phase == live_phase;
                        if let Some(prev) = &msg.previously {
                            if let Some(prev_round) = &prev.round {
                                if let Some(prev_phase) = &prev_round.phase {
                                    if *prev_phase != live_phase && round.phase == live_phase {
                                        self.round_start = Some(self.last_up);
                                    }
                                }
                                if prev_round.bomb.is_some() {
                                    self.bomb_down = false;
                                }
                            }
                        }
                    },
                    None => {
                        self.round_live = false;
                    },
                }
            },
            None => {
                self.in_game = false;
            },
        }
        if let Some(added) = &msg.added {
            if let Some(a_round) = &added.round {
                if let Some(a_r_bomb) = a_round.bomb {
                    if a_r_bomb {
                        self.bomb_down = true;
                        self.round_start = Some(self.last_up);
                    }
                }
            }
        }
        if msg.provider.steamid == msg.player.steamid {
            if let Some(team) = msg.player.team {
                self.team = Some(team);
            }
        }
        proof {
            use_type_invariant(&*self);
        }
    }

    fn report(&self, now: i64) -> (r: StateReport)
        ensures
            r.up == (self@.last_up > now - 20),
            report_shows(self@, r),
            self@.consistent(),
    {
        proof {
            use_type_invariant(self);
        }
        let up = self.last_up + 20 > now;
        let round_end = match self.round_start {
            Some(round_start) => {
                let max_round_duration = if self.bomb_down {
                    BOMB_TIMER_SECONDS
                } else {
                    ROUND_TIME_SECONDS + BOMB_TIMER_SECONDS
                };
                let round_end = round_start + max_round_duration;
                if within_stated_bound(round_end) {
                    format_epoch_seconds(round_end)
                } else {
                    None
                }
            },
            None => None,
        };
        StateReport {
            up,
            in_game: self.in_game,
            team: self.team,
            gamemode: self.gamemode,
            scores: self.scores,
            round_live: self.round_live,
            round_end,
            map: self.map.clone(),
        }
    }

}

/// The game state, beside the record `V` of the installed GSI config.
pub struct State<V> {
    game: Game,
    gsi: V,
}

impl<V> View for State<V> {
    type V = GameView;

    closed spec fn view(&self) -> GameView {
        self.game@
    }
}

impl<V> State<V> {
    /// The record of the installed GSI config that the state keeps.
    pub closed spec fn gsi_record(&self) -> V {
        self.gsi
    }

    /// The record of the installed GSI config.
    pub fn gsi(&self) -> (g: &V)
        ensures
            *g == self.gsi_record(),
    {
        &self.gsi
    }

    /// Folds a message into the state, given how its stamp was read.  The
    /// stamp, where it was read, is a `u32` stamp, as every message carries.
    pub fn apply_message(&mut self, msg: &Message, stamp: Result<i64, InvalidTimestamp>)
        requires
            stamp matches Ok(t) ==> 0 <= t <= u32::MAX,
        ensures
            final(self)@ == old(self)@.after_message(*msg, stamp_seconds(stamp)),
            final(self)@.consistent(),
            final(self).gsi_record() == old(self).gsi_record(),
    {
        self.game.apply_message(msg, stamp);
    }

    /// The report of the state at the time `now` (seconds since the epoch).
    pub fn report(&self, now: i64) -> (r: StateReport)
        ensures
            r.up == (self@.last_up > now - 20),
            report_shows(self@, r),
            self@.consistent(),
    {
        self.game.report(now)
    }

    /// The report of the state now, by the system clock.
    pub fn report_now(&self) -> (r: StateReport)
        ensures
            report_shows(self@, r),
            self@.consistent(),
    {
        let now = now_seconds();
        self.report(now)
    }
}

impl<V: GsiVersions> State<V> {
    /// Folds a message into the state: the GSI record refreshes itself, the
    /// stamp is read, and the rest follows `apply_message`.
    fn handle_message(&mut self, msg: &Message)
        ensures
            final(self)@ == old(self)@.after_message(*msg, message_stamp(*msg)),
            old(self).gsi_record().refreshes_to(final(self).gsi_record()),
    {
        self.gsi.update();
        let stamp = tm_from_unix_timestamp(msg.provider.timestamp);
        self.apply_message(msg, stamp);
    }
}

impl<V: GsiVersions> Default for State<V> {
    fn default() -> (s: State<V>)
        ensures
            s@ == GameView::initial(),
            s.gsi_record().is_fresh(),
    {
        State { game: Game::initial(), gsi: V::new() }
    }
}

impl<V: GsiVersions + Send> TakesUpdates for State<V> {
    /// A report fetch refreshes the GSI record, a reinstall marks it stale;
    /// neither touches the game state.  A message is folded in.
    fn update(&mut self, reason: &UpdateReason)
        ensures
            !(reason is Data) ==> final(self)@ == old(self)@,
            reason matches UpdateReason::Data(m) ==> final(self)@ == old(self)@.after_message(*m, message_stamp(*m)),
            reason is Fetch ==> old(self).gsi_record().refreshes_to(final(self).gsi_record()),
            reason is Update ==> old(self).gsi_record().invalidates_to(final(self).gsi_record()),
            reason is Data ==> old(self).gsi_record().refreshes_to(final(self).gsi_record()),
    {
        match reason {
            UpdateReason::Fetch => {
                self.gsi.update();
            },
            UpdateReason::Update => {
                self.gsi.invalidate();
            },
            UpdateReason::Data(message) => {
                self.handle_message(message);
            },
        }
    }
}

} // verus!
