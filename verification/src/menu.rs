//! The decisions behind the interactive menus.

use vstd::prelude::*;
use crate::text::{decimal_string, decimal_text, law_decimal_round_trip, parse_unsigned, spec_parse_unsigned};

verus! {

/// The option picked by typing `input` in a menu of `max` options: a
/// number from 1 to `max`, as `str::parse::<usize>` reads it.
pub open spec fn spec_choice(input: Seq<char>, max: nat) -> Option<nat> {
    match spec_parse_unsigned(input, usize::MAX as nat) {
        Some(v) => if 1 <= v && v <= max {
            Some(v)
        } else {
            None
        },
        None => None,
    }
}

/// In a menu of `max` options, typing a number accepts it exactly when it
/// is one of the options 1 to `max`, the last one included.
pub proof fn law_choice_accepts_one_to_max(n: nat, max: nat)
    requires
        max <= usize::MAX,
    ensures
        1 <= n <= max ==> spec_choice(decimal_text(n), max) == Some(n),
        !(1 <= n <= max) ==> spec_choice(decimal_text(n), max) is None,
{
    law_decimal_round_trip(n, n);
    if n <= usize::MAX {
        law_decimal_round_trip(n, usize::MAX as nat);
    }
}

/// Reads a menu choice: `None` when `input` is not a number from 1 to
/// `max`.
pub fn parse_choice(input: &str, max: usize) -> (r: Option<usize>)
    ensures
        match spec_choice(input@, max as nat) {
            Some(v) => r == Some(v as usize),
            None => r is None,
        },
{
    match parse_unsigned(input, usize::MAX as u64) {
        Some(v) => {
            let c = v as usize;
            if 1 <= c && c <= max {
                Some(c)
            } else {
                None
            }
        },
        None => None,
    }
}

/// One server as the server lists show it.
pub struct ServerSummary {
    /// The server's name (its configuration and database file name).
    pub name: String,
    pub group_name: String,
    pub is_channel: bool,
    /// 0 when the server's configuration could not be read.
    pub port: u16,
    pub members: i64,
    pub messages: i64,
}

/// The server picked in the server menu, which lists `servers` and then
/// "Back": `None` for "Back".
pub fn chosen_server(servers: &Vec<ServerSummary>, choice: usize) -> (r: Option<String>)
    requires
        1 <= choice <= servers@.len() + 1,
    ensures
        choice == servers@.len() + 1 ==> r is None,
        choice <= servers@.len() ==> (r matches Some(n) && n@ == servers@[choice - 1].name@),
{
    if choice - 1 == servers.len() {
        None
    } else {
        Some(servers[choice - 1].name.clone())
    }
}

/// The word for a server's kind.
pub fn server_type_label(is_channel: bool) -> (s: String)
    ensures
        s@ == if is_channel {
            "Channel"@
        } else {
            "Group"@
        },
{
    if is_channel {
        "Channel".to_owned()
    } else {
        "Group".to_owned()
    }
}

/// How a server's port is shown: the number, or "N/A" when unknown (0).
pub fn port_label(port: u16) -> (s: String)
    ensures
        s@ == if port > 0 {
            decimal_text(port as nat)
        } else {
            "N/A"@
        },
{
    if port > 0 {
        decimal_string(port as u64)
    } else {
        "N/A".to_owned()
    }
}

} // verus!
