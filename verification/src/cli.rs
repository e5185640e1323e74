//! Parsing of the Steam launch command the tool is invoked with.
//!
//! Steam hands the wrapper its own launch invocation; the game's numeric
//! application id is read out of it and becomes the launch identifier.

use crate::text::find_marker_number;
use crate::text::marker_number;
use vstd::prelude::*;
use vstd::string::StrSliceExecFns;

verus! {

/// The text that precedes the application id in a Steam launch command.
pub open spec fn steam_launch_marker() -> Seq<char> {
    "SteamLaunch AppId="@
}

/// The application id a Steam launch command names, if any.
pub open spec fn steam_app_id_of(command: Seq<char>) -> Option<u32> {
    marker_number(command, steam_launch_marker())
}

/// The application id a Steam launch command names, if any.
pub fn steam_app_id(command: &str) -> (r: Option<u32>)
    ensures
        r == steam_app_id_of(command@),
{
    find_marker_number(command, "SteamLaunch AppId=")
}

/// Validates a Steam launch command: the command paired with its
/// application id, or the message shown for an argument that is no such
/// command.
pub fn launch_subcommand_parser(string: &str) -> (r: Result<(String, u32), String>)
    ensures
        match steam_app_id_of(string@) {
            Some(id) => r matches Ok(p) && p.0@ == string@ && p.1 == id,
            None => r matches Err(m) && m@
                == "Provided argument is not a valid Steam launch %command%"@,
        },
{
    match steam_app_id(string) {
        Some(id) => Ok((string.to_owned(), id)),
        None => Err("Provided argument is not a valid Steam launch %command%".to_owned()),
    }
}

} // verus!
