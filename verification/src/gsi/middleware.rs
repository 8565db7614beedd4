//! The request handlers of the web server: what each of them holds, and the
//! decisions each takes.  Reading requests, touching files and sending replies
//! is left to the server around the library, which performs the actions
//! decided here and reports back what happened.
use std::sync::{Arc, Mutex};
use vstd::prelude::*;

use super::message::{Message, TakesUpdates, UpdateReason};
use super::paths::{config_file_path, CFG_PREFIX};

verus! {

/// The lock that the handlers share the state through.
#[verifier::external_type_specification]
#[verifier::external_body]
#[verifier::reject_recursive_types(T)]
pub struct ExMutex<T: ?Sized>(Mutex<T>);

/// What a handler answers.
#[derive(Clone, Copy, Debug, PartialEq, Eq, Structural)]
pub enum Reply {
    /// The message was taken.
    Thanks,
    /// The config was installed.
    Installed,
    /// The preferences were stored.
    Saved,
    InternalServerError,
    BadRequest,
    Unauthorized,
}

impl Reply {
    /// The body of a successful reply; `None` for an error status.
    pub fn text(&self) -> (t: Option<&'static str>)
        ensures
            match self {
                Reply::Thanks => t == Some(THANKS),
                Reply::Installed => t == Some(INSTALLED),
                Reply::Saved => t == Some(SAVED),
                _ => t is None,
            },
    {
        match self {
            Reply::Thanks => Some(THANKS),
            Reply::Installed => Some(INSTALLED),
            Reply::Saved => Some(SAVED),
            _ => None,
        }
    }
}

/// The body of the reply to a message of the game.
pub const THANKS: &'static str = "Thanks";

/// The body of the reply to a successful install.
pub const INSTALLED: &'static str = "It worked";

/// The body of the reply to stored preferences.
pub const SAVED: &'static str = "";

/// The version name that stands for "no config installed".
pub const NO_VERSION: &'static str = "NONE";

/// Takes the messages that the game posts and folds them into the state.
#[verifier::reject_recursive_types(T)]
pub struct GsiDataHandler<T> where T: TakesUpdates {
    state_mutex: Arc<Mutex<T>>,
}

impl<T> GsiDataHandler<T> where T: TakesUpdates {
    pub closed spec fn shared_state(&self) -> Arc<Mutex<T>> {
        self.state_mutex
    }

    pub fn new(state_mutex: Arc<Mutex<T>>) -> (h: GsiDataHandler<T>)
        ensures
            h.shared_state() == state_mutex,
    {
        GsiDataHandler { state_mutex: state_mutex }
    }

    /// The state that messages are folded into.
    pub fn state_mutex(&self) -> (s: &Arc<Mutex<T>>)
        ensures
            *s == self.shared_state(),
    {
        &self.state_mutex
    }

    /// What the state is told of a posted body: the message it decoded to, or,
    /// where it was not a valid message, the default message.
    pub fn update_reason(decoded: Option<Message>) -> (r: UpdateReason)
        ensures
            match decoded {
                Some(m) => r == UpdateReason::Data(m),
                None => r matches UpdateReason::Data(m) && m.provider.steamid@ == Seq::<
                    char,
                >::empty() && m.provider.timestamp == 0 && m.map is None && m.round is None
                    && m.player.steamid@ == Seq::<char>::empty() && m.player.team is None
                    && m.player.activity is None && m.previously is None && m.added is None,
            },
    {
        match decoded {
            Some(m) => UpdateReason::Data(m),
            None => UpdateReason::Data(Message::default()),
        }
    }

    /// The reply once the state took the message.
    pub fn reply() -> (r: Reply)
        ensures
            r == Reply::Thanks,
    {
        Reply::Thanks
    }
}

/// What the preferences handler learned at a step.
pub enum PrefsEvent {
    /// A request came in, from the local machine or not.
    Received { loopback: bool },
    /// The posted preferences were decoded and checked.
    Checked { valid: bool },
    /// Storing the preferences succeeded or failed.
    Saved { ok: bool },
}

/// What the preferences handler does next.
#[derive(Clone, Copy, Debug, PartialEq, Eq, Structural)]
pub enum PrefsAction {
    /// Decode the posted preferences and check them.
    Check,
    /// Store the preferences.
    Save,
    /// Answer the request; the handler is done.
    Respond(Reply),
}

/// Stores the preferences posted from the local machine.
pub struct PrefsHandler;

impl PrefsHandler {
    pub fn new() -> (h: PrefsHandler) {
        PrefsHandler
    }

    /// The next action after `event`.  Only the local machine may store
    /// preferences; invalid ones are refused, and a failure to store them is
    /// the server's error.
    pub fn next_action(&self, event: PrefsEvent) -> (a: PrefsAction)
        ensures
            a == match event {
                PrefsEvent::Received { loopback } => if loopback {
                    PrefsAction::Check
                } else {
                    PrefsAction::Respond(Reply::Unauthorized)
                },
                PrefsEvent::Checked { valid } => if valid {
                    PrefsAction::Save
                } else {
                    PrefsAction::Respond(Reply::BadRequest)
                },
                PrefsEvent::Saved { ok } => if ok {
                    PrefsAction::Respond(Reply::Saved)
                } else {
                    PrefsAction::Respond(Reply::InternalServerError)
                },
            },
    {
        match event {
            PrefsEvent::Received { loopback } => {
                if loopback {
                    PrefsAction::Check
                } else {
                    PrefsAction::Respond(Reply::Unauthorized)
                }
            },
            PrefsEvent::Checked { valid } => {
                if valid {
                    PrefsAction::Save
                } else {
                    PrefsAction::Respond(Reply::BadRequest)
                }
            },
            PrefsEvent::Saved { ok } => {
                if ok {
                    PrefsAction::Respond(Reply::Saved)
                } else {
                    PrefsAction::Respond(Reply::InternalServerError)
                }
            },
        }
    }
}

/// One step of serving an admitted install request.
pub enum InstallStep {
    /// Delete the file at this path.
    Remove(String),
    /// Write the shipped config to this path.
    Write(String),
    /// Tell the state that the config was reinstalled (`update_reason`).
    Notify,
    /// Answer the request.
    Respond(Reply),
}

/// An install step as the contracts speak of it.
pub enum InstallStepView {
    Remove(Seq<char>),
    Write(Seq<char>),
    Notify,
    Respond(Reply),
}

impl View for InstallStep {
    type V = InstallStepView;

    open spec fn view(&self) -> InstallStepView {
        match self {
            InstallStep::Remove(p) => InstallStepView::Remove(p@),
            InstallStep::Write(p) => InstallStepView::Write(p@),
            InstallStep::Notify => InstallStepView::Notify,
            InstallStep::Respond(r) => InstallStepView::Respond(*r),
        }
    }
}

/// Installs the GSI config into the game's config directory, on request of
/// the local machine.
#[verifier::reject_recursive_types(T)]
pub struct Installer<T> where T: TakesUpdates {
    state_mutex: Arc<Mutex<T>>,
}

/// The name of the installed config file of `installed`, where one is
/// installed, and the name of the file for `target`.
pub open spec fn install_paths(cfg_dir: Seq<char>, installed: Seq<char>, target: Seq<char>) -> (
    Option<Seq<char>>,
    Seq<char>,
) {
    (
        if installed == NO_VERSION@ {
            None
        } else {
            Some(cfg_dir + "/"@ + CFG_PREFIX@ + installed + ".cfg"@)
        },
        cfg_dir + "/"@ + CFG_PREFIX@ + target + ".cfg"@,
    )
}

/// The steps of an install, in order: delete the installed config file,
/// where one is installed, then write the shipped one, then tell the state,
/// then answer that it worked.
pub open spec fn install_steps(cfg_dir: Seq<char>, installed: Seq<char>, target: Seq<char>) -> Seq<
    InstallStepView,
> {
    let paths = install_paths(cfg_dir, installed, target);
    let rest = seq![
        InstallStepView::Write(paths.1),
        InstallStepView::Notify,
        InstallStepView::Respond(Reply::Installed),
    ];
    match paths.0 {
        Some(old) => seq![InstallStepView::Remove(old)] + rest,
        None => rest,
    }
}

/// Every install, whatever version is installed, writes the shipped config
/// (`<cfg_dir>/<CFG_PREFIX><target>.cfg`), then tells the state, then answers
/// that it worked; before that it deletes exactly the installed config file
/// (`<cfg_dir>/<CFG_PREFIX><installed>.cfg`), and only where one is installed.
pub proof fn lemma_install_always_writes_target(
    cfg_dir: Seq<char>,
    installed: Seq<char>,
    target: Seq<char>,
)
    ensures
        ({
            let s = install_steps(cfg_dir, installed, target);
            &&& s.len() == if installed == NO_VERSION@ {
                3int
            } else {
                4int
            }
            &&& s[s.len() - 3] == InstallStepView::Write(
                cfg_dir + "/"@ + CFG_PREFIX@ + target + ".cfg"@,
            )
            &&& s[s.len() - 2] == InstallStepView::Notify
            &&& s[s.len() - 1] == InstallStepView::Respond(Reply::Installed)
            &&& installed != NO_VERSION@ ==> s[0] == InstallStepView::Remove(
                cfg_dir + "/"@ + CFG_PREFIX@ + installed + ".cfg"@,
            )
        }),
{
}

impl<T> Installer<T> where T: TakesUpdates {
    pub closed spec fn shared_state(&self) -> Arc<Mutex<T>> {
        self.state_mutex
    }

    pub fn new(state_mutex: Arc<Mutex<T>>) -> (h: Installer<T>)
        ensures
            h.shared_state() == state_mutex,
    {
        Installer { state_mutex: state_mutex }
    }

    /// The state that is told of a reinstall.
    pub fn state_mutex(&self) -> (s: &Arc<Mutex<T>>)
        ensures
            *s == self.shared_state(),
    {
        &self.state_mutex
    }

    /// Whether the request is served at all: only the local machine may
    /// install.  `None` means: read the installed and the shipped version.
    pub fn screen(&self, loopback: bool) -> (r: Option<Reply>)
        ensures
            r == if loopback {
                None::<Reply>
            } else {
                Some(Reply::Unauthorized)
            },
    {
        if loopback {
            None
        } else {
            Some(Reply::Unauthorized)
        }
    }

    /// The steps of an admitted install, in the order to take them, given the
    /// config directory, the installed version (`NO_VERSION` where none is)
    /// and the version this build ships.
    pub fn plan(&self, cfg_dir: &str, installed: &String, target: &String) -> (p: Vec<
        InstallStep,
    >)
        ensures
            p@.map_values(|s: InstallStep| s@) == install_steps(cfg_dir@, installed@, target@),
    {
        let mut steps: Vec<InstallStep> = Vec::new();
        let none = String::from_str(NO_VERSION);
        if *installed != none {
            steps.push(InstallStep::Remove(config_file_path(cfg_dir, installed.as_str())));
        }
        steps.push(InstallStep::Write(config_file_path(cfg_dir, target.as_str())));
        steps.push(InstallStep::Notify);
        steps.push(InstallStep::Respond(Reply::Installed));
        assert(steps@.map_values(|s: InstallStep| s@) =~= install_steps(cfg_dir@, installed@, target@));
        steps
    }

    /// What the state is told once the config was written.
    pub fn update_reason(&self) -> (r: UpdateReason)
        ensures
            r is Update,
    {
        UpdateReason::Update
    }
}

} // verus!
