use std::sync::{Arc, Mutex};

use scoreline_monitor::gsi::message::{Message, TakesUpdates, UpdateReason};
use scoreline_monitor::gsi::middleware::{
    GsiDataHandler, InstallStep, Installer, PrefsAction, PrefsEvent, PrefsHandler, Reply,
};
use scoreline_monitor::gsi::paths::{config_file_path, get_csgo_cfg, CFG_PREFIX};

struct Log(Vec<String>);

impl TakesUpdates for Log {
    fn update(&mut self, data: &UpdateReason) {
        let entry = match data {
            UpdateReason::Fetch => "fetch".to_string(),
            UpdateReason::Update => "update".to_string(),
            UpdateReason::Data(m) => format!("data {}", m.provider.timestamp),
        };
        self.0.push(entry);
    }
}

#[test]
fn paths() {
    assert_eq!(CFG_PREFIX, "gamestate_integration_csgo-scoreline-monitor_");
    assert_eq!(
        config_file_path("/games/csgo/cfg", "3"),
        "/games/csgo/cfg/gamestate_integration_csgo-scoreline-monitor_3.cfg"
    );
    assert_eq!(get_csgo_cfg(Some("/a".to_string()), "/b".to_string()), "/a");
    assert_eq!(get_csgo_cfg(None, "/b".to_string()), "/b");
}

#[test]
fn installer_plans() {
    let inst = Installer::new(Arc::new(Mutex::new(Log(vec![]))));
    assert_eq!(inst.screen(false), Some(Reply::Unauthorized));
    assert_eq!(inst.screen(true), None);
    let steps = inst.plan("/cfg", &"NONE".to_string(), &"4".to_string());
    assert_eq!(steps.len(), 3);
    assert!(matches!(&steps[0], InstallStep::Write(p) if p == "/cfg/gamestate_integration_csgo-scoreline-monitor_4.cfg"));
    assert!(matches!(&steps[1], InstallStep::Notify));
    assert!(matches!(&steps[2], InstallStep::Respond(Reply::Installed)));
    let steps = inst.plan("/cfg", &"3".to_string(), &"4".to_string());
    assert_eq!(steps.len(), 4);
    assert!(matches!(&steps[0], InstallStep::Remove(p) if p == "/cfg/gamestate_integration_csgo-scoreline-monitor_3.cfg"));
    assert!(matches!(&steps[1], InstallStep::Write(p) if p == "/cfg/gamestate_integration_csgo-scoreline-monitor_4.cfg"));
    assert!(matches!(&steps[2], InstallStep::Notify));
    assert!(matches!(&steps[3], InstallStep::Respond(Reply::Installed)));
    assert!(matches!(inst.update_reason(), UpdateReason::Update));
    let shared = inst.state_mutex().clone();
    shared.lock().unwrap().update(&inst.update_reason());
    assert_eq!(shared.lock().unwrap().0, vec!["update".to_string()]);
}

#[test]
fn prefs_steps() {
    let h = PrefsHandler::new();
    assert_eq!(h.next_action(PrefsEvent::Received { loopback: false }), PrefsAction::Respond(Reply::Unauthorized));
    assert_eq!(h.next_action(PrefsEvent::Received { loopback: true }), PrefsAction::Check);
    assert_eq!(h.next_action(PrefsEvent::Checked { valid: false }), PrefsAction::Respond(Reply::BadRequest));
    assert_eq!(h.next_action(PrefsEvent::Checked { valid: true }), PrefsAction::Save);
    assert_eq!(h.next_action(PrefsEvent::Saved { ok: false }), PrefsAction::Respond(Reply::InternalServerError));
    assert_eq!(h.next_action(PrefsEvent::Saved { ok: true }), PrefsAction::Respond(Reply::Saved));
}

#[test]
fn gsi_handler() {
    let shared = Arc::new(Mutex::new(Log(vec![])));
    let h = GsiDataHandler::new(shared.clone());
    assert!(Arc::ptr_eq(h.state_mutex(), &shared));
    let mut m = Message::default();
    m.provider.timestamp = 42;
    shared.lock().unwrap().update(&GsiDataHandler::<Log>::update_reason(Some(m)));
    shared.lock().unwrap().update(&GsiDataHandler::<Log>::update_reason(None));
    assert_eq!(shared.lock().unwrap().0, vec!["data 42".to_string(), "data 0".to_string()]);
    assert_eq!(GsiDataHandler::<Log>::reply(), Reply::Thanks);
}

#[test]
fn reply_texts() {
    assert_eq!(Reply::Thanks.text(), Some("Thanks"));
    assert_eq!(Reply::Installed.text(), Some("It worked"));
    assert_eq!(Reply::Saved.text(), Some(""));
    assert_eq!(Reply::BadRequest.text(), None);
    assert_eq!(Reply::Unauthorized.text(), None);
    assert_eq!(Reply::InternalServerError.text(), None);
}
