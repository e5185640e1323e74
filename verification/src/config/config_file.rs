//! Where a game's configuration file lives, and the errors reading or
//! parsing one can produce.
//!
//! The file's path is computed here from plain inputs: the caller supplies
//! the current user's name and the value of the directory-override
//! environment variable, and performs the actual filesystem reads.

use crate::text::last_char_pos;
use crate::text::str_eq;
use vstd::prelude::*;
use vstd::string::StrSliceExecFns;
use vstd::string::StringExecFns;

verus! {

/// Why a game's configuration could not be used.
#[derive(Debug, Clone)]
pub enum GameConfigError {
    /// The root user has no game configuration directory.
    UserIsRoot,
    /// A path component could not be accessed.
    PermissionDenied(String),
    /// A path component does not exist.
    NotFound(String),
    /// The file's bytes are not valid text; holds the path and the reader's
    /// description of the failure.
    InvalidFileEncoding(String, String),
    /// The file does not parse; holds the path, an explanation, and the
    /// line and column the parser stopped at.
    ParseError(String, String, u16, u16),
    /// Any other input error, described as text.
    UnexpectedIoError(String),
}

/// How reading a located configuration file failed.
#[derive(Debug, Clone)]
pub enum ReadFailure {
    PermissionDenied,
    NotFound,
    InvalidEncoding(String),
    Other(String),
}

/// A game's configuration file, by path.
#[derive(Debug, Clone)]
pub struct GameConfigFile {
    pub path: String,
}

/// The configuration directory of a user without an override:
/// `/home/<user>/.config/gtnkr/game_configs`.
pub open spec fn default_config_directory(username: Seq<char>) -> Seq<char> {
    "/home/"@ + username + "/.config/gtnkr/game_configs"@
}

/// Where the final path component of `name` begins: right after the last
/// slash, or at the start.
pub open spec fn component_start(name: Seq<char>) -> int {
    match last_char_pos(name, '/') {
        Some(s) => s + 1,
        None => 0,
    }
}

/// The file name with its extension replaced by `ron`: everything after the
/// last dot of the final path component is dropped — unless that component
/// only starts with a dot — and `.ron` is appended.
pub open spec fn ron_file_name(name: Seq<char>) -> Seq<char> {
    match last_char_pos(name, '.') {
        Some(d) => if d > component_start(name) {
            name.take(d) + ".ron"@
        } else {
            name + ".ron"@
        },
        None => name + ".ron"@,
    }
}

/// The path of the configuration file `filename` inside `directory`.
pub open spec fn config_file_path(directory: Seq<char>, filename: Seq<char>) -> Seq<char> {
    directory + "/"@ + ron_file_name(filename)
}

/// The directory game configurations are looked up in: the override when one
/// is set, otherwise the current user's default directory — which the root
/// user does not have.
pub fn game_config_directory(username: &str, directory_override: Option<String>) -> (r: Result<
    String,
    GameConfigError,
>)
    ensures
        match directory_override {
            Some(d) => r matches Ok(p) && p@ == d@,
            None => {
                if username@ == "root"@ {
                    r matches Err(e) && e is UserIsRoot
                } else {
                    r matches Ok(p) && p@ == default_config_directory(username@)
                }
            },
        },
{
    match directory_override {
        Some(d) => Ok(d),
        None => {
            proof {
                reveal_strlit("root");
            }
            if str_eq(username, "root") {
                Err(GameConfigError::UserIsRoot)
            } else {
                proof {
                    reveal_strlit("/home/");
                    reveal_strlit("/.config/gtnkr/game_configs");
                }
                let mut p = "/home/".to_owned();
                p.append(username);
                p.append("/.config/gtnkr/game_configs");
                proof {
                    assert(p@ =~= default_config_directory(username@));
                }
                Ok(p)
            }
        },
    }
}

/// The file name with its extension replaced by `ron`.
fn ron_file_name_exec(name: &str) -> (r: String)
    ensures
        r@ == ron_file_name(name@),
{
    let len = name.unicode_len();
    let mut last_dot: Option<usize> = None;
    let mut last_slash: Option<usize> = None;
    let mut i: usize = 0;
    while i < len
        invariant
            len == name@.len(),
            i <= len,
            match last_dot {
                Some(d) => last_char_pos(name@.take(i as int), '.') == Some(d as int) && d < i,
                None => last_char_pos(name@.take(i as int), '.') is None,
            },
            match last_slash {
                Some(d) => last_char_pos(name@.take(i as int), '/') == Some(d as int) && d < i,
                None => last_char_pos(name@.take(i as int), '/') is None,
            },
        decreases len - i,
    {
        proof {
            assert(name@.take(i + 1).drop_last() =~= name@.take(i as int));
        }
        let c = name.get_char(i);
        if c == '.' {
            last_dot = Some(i);
        }
        if c == '/' {
            last_slash = Some(i);
        }
        i = i + 1;
    }
    proof {
        assert(name@.take(len as int) =~= name@);
        reveal_strlit(".ron");
    }
    let comp_start: usize = match last_slash {
        Some(s) => s + 1,
        None => 0,
    };
    let mut out: String;
    match last_dot {
        Some(d) if d > comp_start => {
            out = name.substring_char(0, d).to_owned();
        },
        _ => {
            out = name.to_owned();
        },
    }
    out.append(".ron");
    proof {
        assert(out@ =~= ron_file_name(name@));
    }
    out
}

impl GameConfigFile {
    /// The configuration file the launcher will look for: `filename` with a
    /// `ron` extension, inside the resolved configuration directory.
    /// Whether it exists is for the caller to check.
    pub fn locate(filename: &str, username: &str, directory_override: Option<String>) -> (r:
        Result<GameConfigFile, GameConfigError>)
        ensures
            match directory_override {
                Some(d) => r matches Ok(f) && f.path@ == config_file_path(d@, filename@),
                None => {
                    if username@ == "root"@ {
                        r matches Err(e) && e is UserIsRoot
                    } else {
                        r matches Ok(f) && f.path@ == config_file_path(
                            default_config_directory(username@),
                            filename@,
                        )
                    }
                },
            },
    {
        let mut directory = match game_config_directory(username, directory_override) {
            Ok(d) => d,
            Err(e) => {
                return Err(e);
            },
        };
        proof {
            reveal_strlit("/");
        }
        directory.append("/");
        let name = ron_file_name_exec(filename);
        directory.append(name.as_str());
        proof {
            assert(directory@ =~= config_file_path(
                match directory_override {
                    Some(d) => d@,
                    None => default_config_directory(username@),
                },
                filename@,
            ));
        }
        Ok(GameConfigFile { path: directory })
    }

    /// The error a failed read of this file surfaces: the failure kind,
    /// carrying the file's path where the original error named it.
    pub fn read_error(&self, failure: ReadFailure) -> (r: GameConfigError)
        ensures
            match failure {
                ReadFailure::PermissionDenied => r matches GameConfigError::PermissionDenied(p)
                    && p@ == self.path@,
                ReadFailure::NotFound => r matches GameConfigError::NotFound(p) && p@
                    == self.path@,
                ReadFailure::InvalidEncoding(t) => r matches GameConfigError::InvalidFileEncoding(
                    p,
                    t2,
                ) && p@ == self.path@ && t2@ == t@,
                ReadFailure::Other(t) => r matches GameConfigError::UnexpectedIoError(t2) && t2@
                    == t@,
            },
    {
        match failure {
            ReadFailure::PermissionDenied => GameConfigError::PermissionDenied(self.path.clone()),
            ReadFailure::NotFound => GameConfigError::NotFound(self.path.clone()),
            ReadFailure::InvalidEncoding(t) => GameConfigError::InvalidFileEncoding(
                self.path.clone(),
                t,
            ),
            ReadFailure::Other(t) => GameConfigError::UnexpectedIoError(t),
        }
    }
}

} // verus!
