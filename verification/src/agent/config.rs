//! The agent's configuration: the shell it starts, where its files live and
//! the rules a configuration must meet. The file holds the device token, so
//! the application creates it readable by its owner alone.

use vstd::prelude::*;
use crate::agent::{host_is_windows, AgentError, AgentFault};
use crate::ids::{parse_uuid, uuid_value};
use crate::text::chars_of;

verus! {

/// The program a remote terminal runs, and its arguments.
#[derive(Debug, Clone, PartialEq, Eq)]
pub struct ShellConfig {
    pub program: String,
    pub args: Vec<String>,
}

/// PowerShell with no arguments on Windows; `/bin/bash -l` elsewhere.
pub open spec fn is_default_shell(windows: bool, s: ShellConfig) -> bool {
    if windows {
        s.program@ == "powershell.exe"@ && s.args@.len() == 0
    } else {
        s.program@ == "/bin/bash"@ && s.args@.len() == 1 && s.args@[0]@ == "-l"@
    }
}

/// The shell a fresh configuration names: a login bash, as the local
/// terminal starts, so that the profile puts the user's tools on the path;
/// PowerShell on Windows, which has no login shell and reads its profile
/// either way.
pub fn default_shell_for(windows: bool) -> (r: ShellConfig)
    ensures
        is_default_shell(windows, r),
{
    if windows {
        ShellConfig { program: "powershell.exe".to_owned(), args: Vec::new() }
    } else {
        let mut args: Vec<String> = Vec::new();
        args.push("-l".to_owned());
        ShellConfig { program: "/bin/bash".to_owned(), args }
    }
}

/// The default shell for this host, which is one of the two.
pub fn default_shell() -> (r: ShellConfig)
    ensures
        is_default_shell(true, r) || is_default_shell(false, r),
{
    default_shell_for(host_is_windows())
}

pub const PLAINTEXT_RELAY_MESSAGE: &'static str =
    "relayUrl must start with wss://; the agent verifies certificates against webpki-roots and will not connect over ws://. Set TERMY_AGENT_ALLOW_INSECURE=1 to permit a plaintext relay for local development only";

pub open spec fn starts_with(s: Seq<char>, p: Seq<char>) -> bool {
    s.len() >= p.len() && s.subrange(0, p.len() as int) == p
}

/// What the configuration rules say, in the order they are checked. The
/// receive root's being absolute and the insecure-development switch are
/// read by the application.
pub open spec fn config_fault(
    device_id: Seq<char>,
    device_token: Seq<char>,
    relay_url: Seq<char>,
    device_name: Seq<char>,
    receive_root_is_absolute: bool,
    shell_program: Seq<char>,
    allow_insecure: bool,
) -> Option<Seq<char>> {
    if uuid_value(device_id) is None {
        Some("deviceId is not a UUID"@)
    } else if device_token.len() == 0 {
        Some("deviceToken is empty"@)
    } else if !starts_with(relay_url, "wss://"@) && !(allow_insecure && starts_with(
        relay_url,
        "ws://"@,
    )) {
        Some(PLAINTEXT_RELAY_MESSAGE@)
    } else if device_name.len() == 0 || device_name.len() > 64 {
        Some("deviceName must be 1..64 characters"@)
    } else if !receive_root_is_absolute {
        Some("receiveRoot must be an absolute path"@)
    } else if shell_program.len() == 0 {
        Some("shell.program is empty"@)
    } else {
        None
    }
}

fn has_prefix(s: &str, p: &str) -> (r: bool)
    ensures
        r == starts_with(s@, p@),
{
    let v = chars_of(s);
    let w = chars_of(p);
    if w.len() > v.len() {
        return false;
    }
    let mut i: usize = 0;
    while i < w.len()
        invariant
            v@ == s@,
            w@ == p@,
            w.len() <= v.len(),
            i <= w.len(),
            forall|j: int| 0 <= j < i ==> v@[j] == w@[j],
        decreases w.len() - i,
    {
        if v[i] != w[i] {
            assert(s@.subrange(0, p@.len() as int)[i as int] != p@[i as int]);
            return false;
        }
        i = i + 1;
    }
    assert(s@.subrange(0, p@.len() as int) =~= p@);
    true
}

/// Checks a configuration before it is used or saved.
pub fn validate_config(
    device_id: &str,
    device_token: &str,
    relay_url: &str,
    device_name: &str,
    receive_root_is_absolute: bool,
    shell_program: &str,
    allow_insecure: bool,
) -> (r: Result<(), AgentError>)
    ensures
        match config_fault(
            device_id@,
            device_token@,
            relay_url@,
            device_name@,
            receive_root_is_absolute,
            shell_program@,
            allow_insecure,
        ) {
            None => r is Ok,
            Some(m) => r matches Err(e) && e@ == AgentFault::Config(m),
        },
{
    if parse_uuid(device_id).is_none() {
        return Err(AgentError::Config("deviceId is not a UUID".to_owned()));
    }
    if device_token.is_empty() {
        return Err(AgentError::Config("deviceToken is empty".to_owned()));
    }
    let plaintext_allowed = allow_insecure && has_prefix(relay_url, "ws://");
    if !has_prefix(relay_url, "wss://") && !plaintext_allowed {
        return Err(AgentError::Config(PLAINTEXT_RELAY_MESSAGE.to_owned()));
    }
    let n = chars_of(device_name).len();
    if n == 0 || n > 64 {
        return Err(AgentError::Config("deviceName must be 1..64 characters".to_owned()));
    }
    if !receive_root_is_absolute {
        return Err(AgentError::Config("receiveRoot must be an absolute path".to_owned()));
    }
    if shell_program.is_empty() {
        return Err(AgentError::Config("shell.program is empty".to_owned()));
    }
    Ok(())
}

/// The directory that holds the agent's files, as path components:
/// `%APPDATA%\TermyAgent` on Windows (under the home directory when
/// `APPDATA` is unset), `$XDG_CONFIG_HOME/termy-agent` elsewhere, defaulting
/// to `~/.config/termy-agent` when that is unset or empty.
pub fn config_dir_parts(windows: bool, appdata: Option<&str>, xdg_config_home: Option<&str>, home: &str) -> (r: Vec<String>)
    ensures
        windows && appdata is Some ==> r@.len() == 2 && r@[0]@ == appdata->0@ && r@[1]@ == "TermyAgent"@,
        windows && appdata is None ==> r@.len() == 4 && r@[0]@ == home@ && r@[1]@ == "AppData"@
            && r@[2]@ == "Roaming"@ && r@[3]@ == "TermyAgent"@,
        !windows && (xdg_config_home matches Some(x) && x@.len() > 0) ==> r@.len() == 2 && r@[0]@
            == xdg_config_home->0@ && r@[1]@ == "termy-agent"@,
        !windows && !(xdg_config_home matches Some(x) && x@.len() > 0) ==> r@.len() == 3 && r@[0]@
            == home@ && r@[1]@ == ".config"@ && r@[2]@ == "termy-agent"@,
{
    let mut parts: Vec<String> = Vec::new();
    if windows {
        match appdata {
            Some(base) => {
                parts.push(base.to_owned());
                parts.push("TermyAgent".to_owned());
            },
            None => {
                parts.push(home.to_owned());
                parts.push("AppData".to_owned());
                parts.push("Roaming".to_owned());
                parts.push("TermyAgent".to_owned());
            },
        }
    } else {
        let xdg = match xdg_config_home {
            Some(x) => if x.is_empty() { None } else { Some(x) },
            None => None,
        };
        match xdg {
            Some(base) => {
                parts.push(base.to_owned());
                parts.push("termy-agent".to_owned());
            },
            None => {
                parts.push(home.to_owned());
                parts.push(".config".to_owned());
                parts.push("termy-agent".to_owned());
            },
        }
    }
    parts
}

/// The home directory: `HOME`, else `USERPROFILE`, else the current
/// directory.
pub fn home_dir_from(home: Option<&str>, user_profile: Option<&str>) -> (r: String)
    ensures
        home is Some ==> r@ == home->0@,
        home is None && user_profile is Some ==> r@ == user_profile->0@,
        home is None && user_profile is None ==> r@ == "."@,
{
    match home {
        Some(h) => h.to_owned(),
        None => match user_profile {
            Some(p) => p.to_owned(),
            None => ".".to_owned(),
        },
    }
}

} // verus!
