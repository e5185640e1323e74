//! The compositor sub-configuration and the command fragment it produces.
//!
//! The fragment is the compositor executable followed by its flags, each
//! flag present exactly when its setting asks for it, in a fixed order.

use crate::config::screen_resolution::resolution_argument_of;
use crate::config::screen_resolution::ScreenResolution;
use crate::text::join_spaced;
use vstd::prelude::*;
use vstd::string::StrSliceExecFns;
use vstd::string::StringExecFns;

verus! {

#[derive(Debug, PartialEq, Eq, Structural, Clone, Copy)]
pub enum GamescopeBackend {
    Auto,
    Wayland,
}

impl Default for GamescopeBackend {
    /// The default backend selection: let the compositor pick.
    fn default() -> (r: Self)
        ensures
            r == GamescopeBackend::Auto,
    {
        GamescopeBackend::Auto
    }
}

/// The backend flag: `--backend` followed by the backend's name.
pub open spec fn backend_argument(b: GamescopeBackend) -> Seq<char> {
    match b {
        GamescopeBackend::Auto => "--backend auto"@,
        GamescopeBackend::Wayland => "--backend wayland"@,
    }
}

impl GamescopeBackend {
    /// The backend flag for this selection.
    pub fn as_gamescope_command_argument(&self) -> (r: String)
        ensures
            r@ == backend_argument(*self),
    {
        match self {
            GamescopeBackend::Auto => "--backend auto".to_owned(),
            GamescopeBackend::Wayland => "--backend wayland".to_owned(),
        }
    }
}

#[derive(Debug, PartialEq, Eq, Structural, Clone, Copy)]
pub struct Gamescope {
    pub source_resolution: ScreenResolution,
    pub start_as_fullscreen: bool,
    pub force_grab_cursor: bool,
    pub tearing: bool,
    pub steam_overlay_fix: bool,
    pub mangoapp: bool,
    pub backend: GamescopeBackend,
    pub expose_wayland: bool,
}

/// The compositor settings used when the configuration file leaves them out.
pub open spec fn gamescope_defaults() -> Gamescope {
    Gamescope {
        source_resolution: ScreenResolution::Native,
        start_as_fullscreen: true,
        force_grab_cursor: true,
        tearing: true,
        steam_overlay_fix: true,
        mangoapp: true,
        backend: GamescopeBackend::Auto,
        expose_wayland: false,
    }
}

impl Default for Gamescope {
    /// The compositor settings used when the configuration file leaves them out.
    fn default() -> (r: Gamescope)
        ensures
            r == gamescope_defaults(),
    {
        Gamescope {
            source_resolution: ScreenResolution::Native,
            start_as_fullscreen: true,
            force_grab_cursor: true,
            tearing: true,
            steam_overlay_fix: true,
            mangoapp: true,
            backend: GamescopeBackend::Auto,
            expose_wayland: false,
        }
    }
}

/// A singleton fragment list when `b` holds, and no fragment otherwise.
pub open spec fn fragment_when(b: bool, f: Seq<char>) -> Seq<Seq<char>> {
    if b {
        seq![f]
    } else {
        Seq::empty()
    }
}

/// The compositor's flags in their fixed order, given the already rendered
/// resolution flag.
pub open spec fn gamescope_arguments(g: Gamescope, res_arg: Seq<char>) -> Seq<Seq<char>> {
    seq![res_arg] + fragment_when(g.start_as_fullscreen, "--fullscreen"@) + fragment_when(
        g.force_grab_cursor,
        "--force-grab-cursor"@,
    ) + fragment_when(g.tearing, "--immediate-flips"@) + fragment_when(g.mangoapp, "--mangoapp"@)
        + fragment_when(g.backend != GamescopeBackend::Auto, backend_argument(g.backend))
        + fragment_when(g.expose_wayland, "--expose-wayland"@)
}

/// The full compositor fragment: the executable path, a space, and the flags
/// joined with single spaces.
pub open spec fn gamescope_command(g: Gamescope, path: Seq<char>, res_arg: Seq<char>) -> Seq<
    char,
> {
    path + seq![' '] + join_spaced(gamescope_arguments(g, res_arg))
}

impl Gamescope {
    /// The compositor invocation for this configuration, or `None` when the
    /// native resolution is required but was not determined.
    #[verifier::rlimit(60)]
    pub fn as_command(&self, gamescope_executable_path: &str, native_resolution: Option<(u16, u16)>)
        -> (r: Option<String>)
        ensures
            match resolution_argument_of(self.source_resolution, native_resolution) {
                Some(arg) => r matches Some(s) && s@ == gamescope_command(
                    *self,
                    gamescope_executable_path@,
                    arg,
                ),
                None => r is None,
            },
    {
        let res_arg = match self.source_resolution.as_gamescope_command_argument(
            native_resolution,
        ) {
            Some(a) => a,
            None => {
                return None;
            },
        };
        let ghost arg: Seq<char> = res_arg@;
        let mut arguments: Vec<String> = Vec::new();
        arguments.push(res_arg);
        let ghost mut expected: Seq<Seq<char>> = seq![arg];
        proof {
            assert(arguments.deep_view() =~= expected);
        }
        if self.start_as_fullscreen {
            arguments.push("--fullscreen".to_owned());
        }
        proof {
            expected = expected + fragment_when(self.start_as_fullscreen, "--fullscreen"@);
            assert(arguments.deep_view() =~= expected);
        }
        if self.force_grab_cursor {
            arguments.push("--force-grab-cursor".to_owned());
        }
        proof {
            expected = expected + fragment_when(self.force_grab_cursor, "--force-grab-cursor"@);
            assert(arguments.deep_view() =~= expected);
        }
        if self.tearing {
            arguments.push("--immediate-flips".to_owned());
        }
        proof {
            expected = expected + fragment_when(self.tearing, "--immediate-flips"@);
            assert(arguments.deep_view() =~= expected);
        }
        if self.mangoapp {
            arguments.push("--mangoapp".to_owned());
        }
        proof {
            expected = expected + fragment_when(self.mangoapp, "--mangoapp"@);
            assert(arguments.deep_view() =~= expected);
        }
        if !matches!(self.backend, GamescopeBackend::Auto) {
            let backend_as_argument = self.backend.as_gamescope_command_argument();
            arguments.push(backend_as_argument);
        }
        proof {
            expected = expected + fragment_when(
                self.backend != GamescopeBackend::Auto,
                backend_argument(self.backend),
            );
            assert(arguments.deep_view() =~= expected);
        }
        if self.expose_wayland {
            arguments.push("--expose-wayland".to_owned());
        }
        proof {
            expected = expected + fragment_when(self.expose_wayland, "--expose-wayland"@);
            assert(arguments.deep_view() =~= expected);
            assert(expected =~= gamescope_arguments(*self, arg));
        }
        let arguments_as_string = crate::text::join_fragments(&arguments);
        let mut out = gamescope_executable_path.to_owned();
        proof {
            reveal_strlit(" ");
        }
        out.append(" ");
        out.append(arguments_as_string.as_str());
        proof {
            assert(out@ =~= gamescope_command(*self, gamescope_executable_path@, arg));
        }
        Some(out)
    }
}

} // verus!
