//! Start-up configuration: whether the application registers itself to
//! start at login, and how.
use vstd::prelude::*;

verus! {

/// How the application is registered to start at login on macOS.
#[derive(Clone, Copy, Debug, PartialEq, Eq, Structural)]
pub enum Launcher {
    LaunchAgent,
    AppleScript,
}

/// Autostart registration: the launcher and the arguments passed at start.
pub struct AutostartConfig {
    pub launcher: Launcher,
    pub args: Option<Vec<&'static str>>,
}

impl Default for AutostartConfig {
    fn default() -> (r: Self)
        ensures
            r.launcher == Launcher::LaunchAgent,
            r.args matches Some(a) && a@.len() == 2 && a@[0]@ == "--flag1"@ && a@[1]@ == "--flag2"@,
    {
        AutostartConfig { launcher: Launcher::LaunchAgent, args: Some(vec!["--flag1", "--flag2"]) }
    }
}

/// Start-up settings of the application.
pub struct AppConfig {
    pub autostart_enabled: bool,
    pub autostart_config: AutostartConfig,
}

impl Default for AppConfig {
    /// Autostart is off unless asked for.
    fn default() -> (r: Self)
        ensures
            !r.autostart_enabled,
            r.autostart_config.launcher == Launcher::LaunchAgent,
            r.autostart_config.args matches Some(a) && a@.len() == 2 && a@[0]@ == "--flag1"@
                && a@[1]@ == "--flag2"@,
    {
        AppConfig { autostart_enabled: false, autostart_config: AutostartConfig::default() }
    }
}

} // verus!
