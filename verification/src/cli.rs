//! The rules of the administration commands: where a server's files live,
//! which roles exist, and what a new server's launcher says.

use vstd::prelude::*;
use crate::text::{decimal_string, decimal_text, parse_unsigned, spec_parse_unsigned};

verus! {

/// The configuration file of the server named `name`.
pub open spec fn spec_config_path(name: Seq<char>) -> Seq<char> {
    ".onyx/configs/"@ + name + ".toml"@
}

/// The configuration file to use: the named server's, or "config.toml"
/// when no server is named.
pub fn config_path_for(server: Option<&str>) -> (p: String)
    ensures
        p@ == match server {
            Some(n) => spec_config_path(n@),
            None => "config.toml"@,
        },
{
    match server {
        Some(n) => {
            let mut p = ".onyx/configs/".to_owned();
            p.append(n);
            p.append(".toml");
            p
        },
        None => "config.toml".to_owned(),
    }
}

/// The database file of the server named `name`.
pub fn database_path_for(name: &str) -> (p: String)
    ensures
        p@ == ".onyx/data/"@ + name@ + ".db"@,
{
    let mut p = ".onyx/data/".to_owned();
    p.append(name);
    p.append(".db");
    p
}

/// A role a member can have.
pub open spec fn spec_is_valid_role(role: Seq<char>) -> bool {
    role == "owner"@ || role == "moderator"@ || role == "member"@
}

/// Whether `role` is one of "owner", "moderator" and "member".
pub fn is_valid_role(role: &str) -> (b: bool)
    ensures
        b == spec_is_valid_role(role@),
{
    let r = role.to_owned();
    let owner = "owner".to_owned();
    let moderator = "moderator".to_owned();
    let member = "member".to_owned();
    r == owner || r == moderator || r == member
}

/// The role picked in the role menu (1 owner, 2 moderator, otherwise member).
pub fn role_for_choice(choice: usize) -> (r: String)
    ensures
        r@ == if choice == 1 {
            "owner"@
        } else if choice == 2 {
            "moderator"@
        } else {
            "member"@
        },
{
    if choice == 1 {
        "owner".to_owned()
    } else if choice == 2 {
        "moderator".to_owned()
    } else {
        "member".to_owned()
    }
}

/// What `str::to_lowercase` gives for a text.
pub uninterp spec fn spec_lowercase(s: Seq<char>) -> Seq<char>;

/// `s` in lower case, through `str::to_lowercase` (Unicode case mapping,
/// which the name stands for).
#[verifier::external_body]
fn lowercase(s: &str) -> (r: String)
    ensures
        r@ == spec_lowercase(s@),
{
    s.to_lowercase()
}

/// Whether a `--type` argument asks for a channel (it reads "channel" in
/// any case).
pub fn is_channel_type(type_arg: &str) -> (b: bool)
    ensures
        b == (spec_lowercase(type_arg@) == "channel"@),
{
    let l = lowercase(type_arg);
    let channel = "channel".to_owned();
    l == channel
}

/// The first port handed out automatically.
pub const FIRST_AUTO_PORT: u16 = 3000;

/// The port a new server gets automatically: the first one, plus one for
/// each configuration that already exists.
pub fn auto_port(existing_configs: usize) -> (p: u16)
    requires
        existing_configs <= 65535 - FIRST_AUTO_PORT,
    ensures
        p == FIRST_AUTO_PORT + existing_configs,
{
    FIRST_AUTO_PORT + existing_configs as u16
}

/// The port typed for a new server (already trimmed): the automatic one
/// when nothing or no valid port number was typed.
pub fn port_from_input(input: &str, auto: u16) -> (p: u16)
    ensures
        p == match spec_parse_unsigned(input@, 65535) {
            Some(v) => if input@.len() == 0 {
                auto as nat
            } else {
                v
            },
            None => auto as nat,
        },
{
    if input.unicode_len() == 0 {
        return auto;
    }
    match parse_unsigned(input, 65535) {
        Some(v) => v as u16,
        None => auto,
    }
}

/// `input`, or `default` when nothing was typed.
pub fn or_default(input: String, default: &String) -> (r: String)
    ensures
        r@ == if input@.len() == 0 {
            default@
        } else {
            input@
        },
{
    if input.unicode_len() == 0 {
        default.clone()
    } else {
        input
    }
}

/// The system a launcher is written for.
pub enum LauncherOs {
    Windows,
    Linux,
}

/// The launcher system asked for by `--os`: "auto" means the host's,
/// "windows" and "linux" name one; anything else is refused.
pub fn resolve_target_os(os: &str, host_is_windows: bool) -> (r: Option<LauncherOs>)
    ensures
        r == if os@ == "auto"@ {
            if host_is_windows {
                Some(LauncherOs::Windows)
            } else {
                Some(LauncherOs::Linux)
            }
        } else if os@ == "windows"@ {
            Some(LauncherOs::Windows)
        } else if os@ == "linux"@ {
            Some(LauncherOs::Linux)
        } else {
            None
        },
{
    let o = os.to_owned();
    let auto = "auto".to_owned();
    let windows = "windows".to_owned();
    let linux = "linux".to_owned();
    if o == auto {
        if host_is_windows {
            Some(LauncherOs::Windows)
        } else {
            Some(LauncherOs::Linux)
        }
    } else if o == windows {
        Some(LauncherOs::Windows)
    } else if o == linux {
        Some(LauncherOs::Linux)
    } else {
        None
    }
}

/// The file name of a server's launcher.
pub fn launcher_file_name(os: &LauncherOs, server_name: &str) -> (f: String)
    ensures
        f@ == server_name@ + match os {
            LauncherOs::Windows => ".bat"@,
            LauncherOs::Linux => ".sh"@,
        },
{
    let mut f = server_name.to_owned();
    match os {
        LauncherOs::Windows => f.append(".bat"),
        LauncherOs::Linux => f.append(".sh"),
    }
    f
}

/// The text of a server's launcher script.
pub open spec fn spec_launcher_script(os: LauncherOs, name: Seq<char>, port: nat) -> Seq<char> {
    match os {
        LauncherOs::Windows => "@echo off\ntitle ONYX Server - "@ + name + "\ncd /d \"%~dp0\"\necho Starting ONYX server: "@
            + name + "\necho Port: "@ + decimal_text(port)
            + "\necho.\necho Press Ctrl+C to stop the server\necho.\nonyx-server.exe --server "@ + name
            + " serve\npause\n"@,
        LauncherOs::Linux => "#!/bin/bash\ncd \"$(dirname \"$0\")\"\necho \"Starting ONYX server: "@ + name
            + "\"\necho \"Port: "@ + decimal_text(port)
            + "\"\necho \"\"\necho \"Press Ctrl+C to stop the server\"\necho \"\"\n./onyx-server --server "@
            + name + " serve\n"@,
    }
}

/// The launcher script that starts server `server_name` on `port`.
pub fn launcher_script(os: &LauncherOs, server_name: &str, port: u16) -> (s: String)
    ensures
        s@ == spec_launcher_script(*os, server_name@, port as nat),
{
    let port_text = decimal_string(port as u64);
    match os {
        LauncherOs::Windows => {
            let mut s = "@echo off\ntitle ONYX Server - ".to_owned();
            s.append(server_name);
            s.append("\ncd /d \"%~dp0\"\necho Starting ONYX server: ");
            s.append(server_name);
            s.append("\necho Port: ");
            s.append(port_text.as_str());
            s.append("\necho.\necho Press Ctrl+C to stop the server\necho.\nonyx-server.exe --server ");
            s.append(server_name);
            s.append(" serve\npause\n");
            s
        },
        LauncherOs::Linux => {
            let mut s = "#!/bin/bash\ncd \"$(dirname \"$0\")\"\necho \"Starting ONYX server: ".to_owned();
            s.append(server_name);
            s.append("\"\necho \"Port: ");
            s.append(port_text.as_str());
            s.append("\"\necho \"\"\necho \"Press Ctrl+C to stop the server\"\necho \"\"\n./onyx-server --server ");
            s.append(server_name);
            s.append(" serve\n");
            s
        },
    }
}

} // verus!
