//! Where the game looks for GSI config files.
use vstd::prelude::*;
use vstd::string::*;

verus! {

/// The start of the name of every GSI config file that this program installs.
pub const CFG_PREFIX: &'static str = "gamestate_integration_csgo-scoreline-monitor_";

/// The directory of the game's config files: the one set in the stored
/// preferences where they could be loaded, else the one of the default
/// preferences.
pub fn get_csgo_cfg(stored: Option<String>, default_path: String) -> (path: String)
    ensures
        path@ == match stored {
            Some(p) => p@,
            None => default_path@,
        },
{
    match stored {
        Some(p) => p,
        None => default_path,
    }
}

/// The path of the config file of the given version, in the config directory
/// `cfg_dir`: `<cfg_dir>/<CFG_PREFIX><version>.cfg`.
pub fn config_file_path(cfg_dir: &str, version: &str) -> (path: String)
    ensures
        path@ == cfg_dir@ + "/"@ + CFG_PREFIX@ + version@ + ".cfg"@,
{
    let mut path = String::from_str(cfg_dir);
    path.append("/");
    path.append(CFG_PREFIX);
    path.append(version);
    path.append(".cfg");
    path
}

} // verus!
