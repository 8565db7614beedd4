use scoreline_monitor::game::clock::{format_epoch_seconds, tm_from_unix_timestamp};
use scoreline_monitor::game::state::{GsiVersions, State, StateReport};
use scoreline_monitor::gsi::message::added;
use scoreline_monitor::gsi::message::map::{GameMap, Phase as MapPhase, Team as MapTeam};
use scoreline_monitor::gsi::message::previous;
use scoreline_monitor::gsi::message::round::{Bomb, Phase, Round};
use scoreline_monitor::gsi::message::{
    Activity, Message, Mode, Player, Provider, TakesUpdates, Team, UpdateReason,
};

#[derive(Default)]
struct Counts {
    updates: u32,
    invalidations: u32,
}

impl GsiVersions for Counts {
    fn is_fresh(self) -> bool {
        self.updates == 0 && self.invalidations == 0
    }
    fn refreshes_to(self, next: Self) -> bool {
        next.updates == self.updates + 1 && next.invalidations == self.invalidations
    }
    fn invalidates_to(self, next: Self) -> bool {
        next.updates == self.updates && next.invalidations == self.invalidations + 1
    }
    fn new() -> Self {
        Counts::default()
    }
    fn update(&mut self) {
        self.updates += 1;
    }
    fn invalidate(&mut self) {
        self.invalidations += 1;
    }
}

const STAMP: u32 = 1_500_000_000;

fn base_message(stamp: u32) -> Message {
    Message {
        provider: Provider { steamid: "7656".to_string(), timestamp: stamp },
        map: None,
        round: None,
        player: Player { steamid: "7656".to_string(), team: None, activity: Some(Activity::playing) },
        previously: None,
        added: None,
    }
}

fn with_map(mut m: Message, mode: Mode, ct: u8, t: u8) -> Message {
    m.map = Some(GameMap {
        mode,
        name: "de_dust2".to_string(),
        phase: MapPhase::live,
        team_ct: MapTeam { score: ct },
        team_t: MapTeam { score: t },
    });
    m
}

fn with_round(mut m: Message, phase: Phase, before: Option<Phase>, bomb_before: Option<&str>) -> Message {
    m.round = Some(Round { phase, bomb: None, win_team: None });
    m.previously = Some(previous::Message {
        provider: None,
        player: None,
        round: Some(previous::Round { phase: before, bomb: bomb_before.map(|b| b.to_string()) }),
    });
    m
}

fn with_plant(mut m: Message) -> Message {
    m.added = Some(added::Message { round: Some(added::Round { bomb: Some(true) }) });
    m
}

fn summary(r: &StateReport) -> (bool, Option<Team>, Mode, u8, u8, bool, Option<String>, String) {
    (r.in_game, r.team, r.gamemode, r.scores.ct(), r.scores.t(), r.round_live, r.round_end.clone(), r.map.clone())
}

#[test]
fn fresh_state_reports_nothing() {
    let s: State<Counts> = State::default();
    assert_eq!((s.gsi().updates, s.gsi().invalidations), (0, 0));
    let r = s.report(100);
    assert!(!r.up);
    assert_eq!(summary(&r), (false, None, Mode::custom, 0, 0, false, None, String::new()));
}

#[test]
fn stamps_read_as_seconds() {
    assert_eq!(tm_from_unix_timestamp(STAMP), Ok(1_500_000_000));
    assert_eq!(tm_from_unix_timestamp(0), Ok(0));
    assert_eq!(tm_from_unix_timestamp(u32::MAX), Ok(4_294_967_295));
    assert_eq!(format_epoch_seconds(1429), Some("1429".to_string()));
    assert_eq!(format_epoch_seconds(4_294_967_450), Some("4294967450".to_string()));
    assert_eq!(format_epoch_seconds(0), Some("0".to_string()));
}

#[test]
fn competitive_map_is_in_game() {
    let mut s: State<Counts> = State::default();
    s.update(&UpdateReason::Data(with_map(base_message(STAMP), Mode::competitive, 3, 5)));
    let r = s.report(STAMP as i64);
    assert!(r.up);
    assert_eq!(summary(&r), (true, None, Mode::competitive, 3, 5, false, None, "de_dust2".to_string()));
    assert_eq!(r.gamemode.label(), "Competitive");
    assert_eq!(s.gsi().updates, 1);
}

#[test]
fn casual_map_is_not_in_game_and_no_map_leaves_game() {
    let mut s: State<Counts> = State::default();
    s.update(&UpdateReason::Data(with_map(base_message(STAMP), Mode::casual, 1, 2)));
    assert!(!s.report(STAMP as i64).in_game);
    s.update(&UpdateReason::Data(with_map(base_message(STAMP), Mode::competitive, 1, 2)));
    assert!(s.report(STAMP as i64).in_game);
    s.update(&UpdateReason::Data(base_message(STAMP + 1)));
    let r = s.report(STAMP as i64 + 1);
    assert_eq!(summary(&r), (false, None, Mode::competitive, 1, 2, false, None, "de_dust2".to_string()));
}

#[test]
fn round_going_live_sets_round_end() {
    let mut s: State<Counts> = State::default();
    let m = with_round(with_map(base_message(STAMP), Mode::competitive, 0, 0), Phase::live, Some(Phase::freezetime), None);
    s.update(&UpdateReason::Data(m));
    let r = s.report(STAMP as i64);
    assert!(r.round_live);
    assert_eq!(r.round_end, Some("1500000155".to_string()));
}

#[test]
fn live_round_without_phase_change_keeps_round_start() {
    let mut s: State<Counts> = State::default();
    let m = with_round(with_map(base_message(STAMP), Mode::competitive, 0, 0), Phase::live, Some(Phase::live), None);
    s.update(&UpdateReason::Data(m));
    let r = s.report(STAMP as i64);
    assert!(r.round_live);
    assert_eq!(r.round_end, None);
}

#[test]
fn bomb_plant_sets_bomb_timer_and_change_clears_it() {
    let mut s: State<Counts> = State::default();
    let start = with_round(with_map(base_message(STAMP), Mode::competitive, 0, 0), Phase::live, Some(Phase::freezetime), None);
    s.update(&UpdateReason::Data(start));
    let plant = with_plant(with_map(base_message(STAMP + 60), Mode::competitive, 0, 0));
    s.update(&UpdateReason::Data(plant));
    assert_eq!(s.report(STAMP as i64 + 60).round_end, Some("1500000100".to_string()));
    let mut defuse = with_round(with_map(base_message(STAMP + 80), Mode::competitive, 1, 0), Phase::over, Some(Phase::live), Some("planted"));
    if let Some(r) = defuse.round.as_mut() {
        r.bomb = Some(Bomb::defused);
    }
    s.update(&UpdateReason::Data(defuse));
    let r = s.report(STAMP as i64 + 80);
    assert!(!r.round_live);
    assert_eq!(r.round_end, Some("1500000215".to_string()));
}

#[test]
fn team_only_from_own_client() {
    let mut s: State<Counts> = State::default();
    let mut spectated = base_message(STAMP);
    spectated.player.steamid = "other".to_string();
    spectated.player.team = Some(Team::T);
    s.update(&UpdateReason::Data(spectated));
    assert_eq!(s.report(STAMP as i64).team, None);
    let mut own = base_message(STAMP);
    own.player.team = Some(Team::CT);
    s.update(&UpdateReason::Data(own));
    assert_eq!(s.report(STAMP as i64).team, Some(Team::CT));
    s.update(&UpdateReason::Data(base_message(STAMP)));
    assert_eq!(s.report(STAMP as i64).team, Some(Team::CT));
    assert_eq!(Team::CT.label(), "CT");
}

#[test]
fn fetch_and_update_leave_game_state() {
    let mut s: State<Counts> = State::default();
    s.update(&UpdateReason::Data(with_map(base_message(STAMP), Mode::competitive, 4, 4)));
    let before = summary(&s.report(STAMP as i64));
    s.update(&UpdateReason::Fetch);
    s.update(&UpdateReason::Update);
    assert_eq!(summary(&s.report(STAMP as i64)), before);
    assert_eq!(s.gsi().updates, 2);
    assert_eq!(s.gsi().invalidations, 1);
}

#[test]
fn up_for_twenty_seconds() {
    let mut s: State<Counts> = State::default();
    s.update(&UpdateReason::Data(base_message(STAMP)));
    assert!(s.report(STAMP as i64 + 19).up);
    assert!(!s.report(STAMP as i64 + 20).up);
    assert!(s.report_now().in_game == false);
}

#[test]
fn repeated_message_changes_nothing_more() {
    let m = with_plant(with_round(with_map(base_message(STAMP), Mode::competitive, 2, 9), Phase::live, Some(Phase::freezetime), Some("x")));
    let mut once: State<Counts> = State::default();
    once.update(&UpdateReason::Data(m.clone()));
    let mut twice: State<Counts> = State::default();
    twice.update(&UpdateReason::Data(m.clone()));
    twice.update(&UpdateReason::Data(m));
    assert_eq!(summary(&once.report(STAMP as i64)), summary(&twice.report(STAMP as i64)));
    assert_eq!(once.report(STAMP as i64).round_end, Some("1500000040".to_string()));
}

#[test]
fn labels() {
    assert_eq!(Mode::casual.label(), "Casual");
    assert_eq!(Mode::gungametrbomb.label(), "Demolition");
    assert_eq!(Mode::gungameprogressive.label(), "Arms Race");
    assert_eq!(Mode::deathmatch.label(), "Deathmatch");
    assert_eq!(Mode::custom.label(), "Custom");
    assert_eq!(Mode::default(), Mode::custom);
    assert_eq!(Team::T.label(), "T");
    assert_eq!(Activity::menu.label(), "menu");
    assert_eq!(Activity::textinput.label(), "textinput");
    assert_eq!(Phase::default(), Phase::over);
    assert_eq!(MapPhase::default(), MapPhase::gameover);
}
