//! Assembling the launch command and supervising the launch.
//!
//! A resolved configuration is turned into a [`CommandPlan`]: the enabled
//! wrapper tools' invocations in a fixed precedence order, followed by the
//! target command. Resolving a tool to an executable path goes through the
//! system search path; a tool that cannot be found aborts assembly with an
//! error naming it and, when known, where to get it.

pub mod display_discovery;
pub mod supervisor;

pub use supervisor::GameLauncher;

use crate::config::config_file::GameConfigError;
use crate::config::gamescope::gamescope_command;
use crate::config::screen_resolution::resolution_argument_of;
use crate::config::GameConfig;
use crate::config::VulkanDriver;
use crate::process_output_log::ProcessOutputLogError;
use crate::text::dec_str;
use crate::text::join_spaced;
use crate::text::last_char_pos;
use crate::text::str_eq;
use vstd::prelude::*;
use vstd::string::StrSliceExecFns;
use vstd::string::StringExecFns;

verus! {

/// Why a launch could not be carried out, or what went wrong around it.
#[derive(Debug, Clone)]
pub enum GameLauncherError {
    /// A path that was expected to name an executable does not.
    InvalidExecutablePath(String),
    /// The executable could not be resolved on the search path.
    ResolveExecutablePath(String),
    /// The game's configuration file could not be located.
    FindConfigFile(GameConfigError),
    /// The game's configuration file could not be read or parsed.
    ParseConfigFile(GameConfigError),
    /// A wrapper tool is enabled but not installed; holds the tool's name
    /// and an installation hint.
    MissingCliTool(String, String),
    /// Spawning the compositor or the launch command failed.
    RunCommand(String),
    /// The captured output log could not be created or copied.
    ProcessOutputLog(ProcessOutputLogError),
    /// The compositor needs the display's native resolution, which could
    /// not be determined.
    UnknownNativeResolution,
}

/// The installation hint for a known wrapper tool.
pub open spec fn install_hint(name: Seq<char>) -> Option<Seq<char>> {
    if name == "gamemoderun"@ {
        Some("[gamemode](https://github.com/FeralInteractive/gamemode)"@)
    } else if name == "mangohud"@ {
        Some("[MangoHud](https://github.com/flightlessmango/MangoHud)"@)
    } else if name == "gamescope"@ {
        Some("[gamescope](https://github.com/ValveSoftware/gamescope)"@)
    } else if name == "strangle"@ {
        Some("[libstrangle](https://github.com/milaq/libstrangle)"@)
    } else if name == "vk_amdvlk"@ {
        Some("[amd-vulkan-prefixes](https://gitlab.com/AndrewShark/amd-vulkan-prefixes)"@)
    } else if name == "vk_radv"@ {
        Some("[amd-vulkan-prefixes](https://gitlab.com/AndrewShark/amd-vulkan-prefixes)"@)
    } else {
        None
    }
}

/// The hint a missing-tool error carries: the tool's installation hint, or
/// a placeholder when none is known.
pub open spec fn missing_tool_hint(name: Seq<char>) -> Seq<char> {
    match install_hint(name) {
        Some(h) => h,
        None => "<[Undefined, please create an issue]>"@,
    }
}

/// The error for a wrapper tool that is not on the search path.
pub fn missing_cli_tool_error(name: &str) -> (r: GameLauncherError)
    ensures
        r matches GameLauncherError::MissingCliTool(n, h) && n@ == name@ && h@
            == missing_tool_hint(name@),
{
    proof {
        reveal_strlit("gamemoderun");
        reveal_strlit("mangohud");
        reveal_strlit("gamescope");
        reveal_strlit("strangle");
        reveal_strlit("vk_amdvlk");
        reveal_strlit("vk_radv");
    }
    let hint: &str = if str_eq(name, "gamemoderun") {
        "[gamemode](https://github.com/FeralInteractive/gamemode)"
    } else if str_eq(name, "mangohud") {
        "[MangoHud](https://github.com/flightlessmango/MangoHud)"
    } else if str_eq(name, "gamescope") {
        "[gamescope](https://github.com/ValveSoftware/gamescope)"
    } else if str_eq(name, "strangle") {
        "[libstrangle](https://github.com/milaq/libstrangle)"
    } else if str_eq(name, "vk_amdvlk") {
        "[amd-vulkan-prefixes](https://gitlab.com/AndrewShark/amd-vulkan-prefixes)"
    } else if str_eq(name, "vk_radv") {
        "[amd-vulkan-prefixes](https://gitlab.com/AndrewShark/amd-vulkan-prefixes)"
    } else {
        "<[Undefined, please create an issue]>"
    };
    GameLauncherError::MissingCliTool(name.to_owned(), hint.to_owned())
}

/// The executable path a tool resolves to on this machine, if any.
///
/// Relies on `which::which`: it searches the directories of the `PATH`
/// environment variable for an executable file of the given name. The
/// result depends on the machine, so nothing is promised of it.
#[verifier::external_body]
fn resolve_tool(name: &str) -> (r: Option<String>) {
    which::which(name).ok().map(|p| p.to_string_lossy().to_string())
}

/// The executable path for a wrapper tool, or the missing-tool error naming
/// it. Whether resolution succeeds depends on the machine; what the error
/// says when it fails is pinned down.
pub fn find_executable_gml(name: &str) -> (r: Result<String, GameLauncherError>)
    ensures
        r matches Err(e) ==> e matches GameLauncherError::MissingCliTool(n, h) && n@ == name@
            && h@ == missing_tool_hint(name@),
{
    match resolve_tool(name) {
        Some(path) => Ok(path),
        None => Err(missing_cli_tool_error(name)),
    }
}

/// The assembled launch command: the enabled wrappers' invocations in
/// precedence order, and the target command that always comes last.
#[derive(Debug, Clone)]
pub struct CommandPlan {
    pub wrapper_fragments: Vec<String>,
    pub target: String,
}

impl CommandPlan {
    /// Every fragment of the plan; the target is the last.
    pub open spec fn fragments(self) -> Seq<Seq<char>> {
        self.wrapper_fragments.deep_view().push(self.target@)
    }

    /// The single string handed to the command shell: the fragments joined
    /// with single spaces.
    pub open spec fn joined_spec(self) -> Seq<char> {
        join_spaced(self.fragments())
    }

    /// The single string handed to the command shell.
    pub fn joined(&self) -> (r: String)
        ensures
            r@ == self.joined_spec(),
    {
        let mut all: Vec<String> = Vec::new();
        let mut i: usize = 0;
        while i < self.wrapper_fragments.len()
            invariant
                i <= self.wrapper_fragments@.len(),
                all.deep_view() == self.wrapper_fragments.deep_view().take(i as int),
            decreases self.wrapper_fragments@.len() - i,
        {
            proof {
                assert(all.deep_view().len() == all@.len());
            }
            all.push(self.wrapper_fragments[i].clone());
            proof {
                assert(all.deep_view() =~~= self.wrapper_fragments.deep_view().take(i + 1));
            }
            i = i + 1;
        }
        all.push(self.target.clone());
        proof {
            assert(self.wrapper_fragments.deep_view().take(
                self.wrapper_fragments@.len() as int,
            ) =~= self.wrapper_fragments.deep_view());
            assert(all.deep_view() =~~= self.fragments());
        }
        crate::text::join_fragments(&all)
    }
}

/// The outcomes of tool resolution and of the native-resolution query that
/// assembly consumes. A `None` path means the tool was not found.
pub struct AssemblyInputs {
    pub gamemode_path: Option<String>,
    pub mangohud_path: Option<String>,
    pub gamescope_path: Option<String>,
    pub strangle_path: Option<String>,
    pub vulkan_path: Option<String>,
    pub native_resolution: Option<(u16, u16)>,
}

/// What assembly produces for a configuration and a set of resolution
/// outcomes: the wrapper fragments, or the first failure in precedence
/// order.
pub enum AssemblyOutcome {
    /// The wrapper fragments, in precedence order.
    Fragments(Seq<Seq<char>>),
    /// A wrapper tool was not found; holds its name.
    MissingTool(Seq<char>),
    /// The compositor needs the native resolution, which is unknown.
    NoNativeResolution,
}

/// The name of the wrapper tool a driver selection needs, if any.
pub open spec fn vulkan_tool(d: VulkanDriver) -> Option<Seq<char>> {
    match d {
        VulkanDriver::Default => None,
        VulkanDriver::Amdvlk => Some("vk_amdvlk"@),
        VulkanDriver::Radv => Some("vk_radv"@),
    }
}

/// The performance-governor fragment: the resolved tool path, when enabled.
pub open spec fn gamemode_part(c: GameConfig, inp: AssemblyInputs) -> Seq<Seq<char>> {
    if c.gamemode {
        seq![inp.gamemode_path.unwrap()@]
    } else {
        Seq::empty()
    }
}

/// The overlay fragment: the resolved tool path, when enabled.
pub open spec fn mangohud_part(c: GameConfig, inp: AssemblyInputs) -> Seq<Seq<char>> {
    if c.mangohud {
        seq![inp.mangohud_path.unwrap()@]
    } else {
        Seq::empty()
    }
}

/// The compositor fragment: the compositor's invocation, when configured.
pub open spec fn gamescope_part(c: GameConfig, inp: AssemblyInputs) -> Seq<Seq<char>> {
    match c.gamescope {
        Some(g) => seq![
            gamescope_command(
                g,
                inp.gamescope_path.unwrap()@,
                resolution_argument_of(g.source_resolution, inp.native_resolution).unwrap(),
            ),
        ],
        None => Seq::empty(),
    }
}

/// The frame-limiter fragment: the resolved tool path followed by the cap,
/// when a cap is set.
pub open spec fn strangle_part(c: GameConfig, inp: AssemblyInputs) -> Seq<Seq<char>> {
    if c.fps_limit > 0 {
        seq![inp.strangle_path.unwrap()@ + seq![' '] + dec_str(c.fps_limit as nat)]
    } else {
        Seq::empty()
    }
}

/// The driver-shim fragment: the resolved tool path, when a driver is
/// selected.
pub open spec fn vulkan_part(c: GameConfig, inp: AssemblyInputs) -> Seq<Seq<char>> {
    if vulkan_tool(c.vulkan_driver) is Some {
        seq![inp.vulkan_path.unwrap()@]
    } else {
        Seq::empty()
    }
}

/// The wrapper fragments of a plan, in their fixed precedence order:
/// performance governor, overlay, compositor, frame limiter, driver shim.
pub open spec fn wrapper_fragments_spec(c: GameConfig, inp: AssemblyInputs) -> Seq<Seq<char>> {
    gamemode_part(c, inp) + mangohud_part(c, inp) + gamescope_part(c, inp) + strangle_part(c, inp)
        + vulkan_part(c, inp)
}

/// What assembling `c` with the resolution outcomes `inp` produces: the
/// first failure in precedence order, or the full fragment list.
pub open spec fn assembly_outcome(c: GameConfig, inp: AssemblyInputs) -> AssemblyOutcome {
    if c.gamemode && inp.gamemode_path is None {
        AssemblyOutcome::MissingTool("gamemoderun"@)
    } else if c.mangohud && inp.mangohud_path is None {
        AssemblyOutcome::MissingTool("mangohud"@)
    } else if c.gamescope is Some && inp.gamescope_path is None {
        AssemblyOutcome::MissingTool("gamescope"@)
    } else if c.gamescope matches Some(g) && resolution_argument_of(
        g.source_resolution,
        inp.native_resolution,
    ) is None {
        AssemblyOutcome::NoNativeResolution
    } else if c.fps_limit > 0 && inp.strangle_path is None {
        AssemblyOutcome::MissingTool("strangle"@)
    } else if vulkan_tool(c.vulkan_driver) is Some && inp.vulkan_path is None {
        AssemblyOutcome::MissingTool(vulkan_tool(c.vulkan_driver).unwrap())
    } else {
        AssemblyOutcome::Fragments(wrapper_fragments_spec(c, inp))
    }
}

/// Builds the launch plan for `config` and target `command` from the given
/// resolution outcomes: exactly the fragments `assembly_outcome` names, or
/// its first failure as an error.
pub fn build_command_plan(config: &GameConfig, command: &str, inputs: AssemblyInputs) -> (r:
    Result<CommandPlan, GameLauncherError>)
    ensures
        match assembly_outcome(*config, inputs) {
            AssemblyOutcome::Fragments(frags) => r matches Ok(p) && p.wrapper_fragments.deep_view()
                == frags && p.target@ == command@,
            AssemblyOutcome::MissingTool(name) => r matches Err(e) && e
                matches GameLauncherError::MissingCliTool(n, h) && n@ == name && h@
                == missing_tool_hint(name),
            AssemblyOutcome::NoNativeResolution => r matches Err(e) && e
                matches GameLauncherError::UnknownNativeResolution,
        },
{
    let ghost inp = inputs;
    let mut fragments: Vec<String> = Vec::new();
    let ghost mut expected: Seq<Seq<char>> = Seq::empty();
    if config.gamemode {
        match inputs.gamemode_path {
            Some(p) => fragments.push(p),
            None => {
                return Err(missing_cli_tool_error("gamemoderun"));
            },
        }
    }
    proof {
        expected = expected + gamemode_part(*config, inp);
        assert(fragments.deep_view() =~~= expected);
    }
    if config.mangohud {
        match inputs.mangohud_path {
            Some(p) => fragments.push(p),
            None => {
                return Err(missing_cli_tool_error("mangohud"));
            },
        }
    }
    proof {
        expected = expected + mangohud_part(*config, inp);
        assert(fragments.deep_view() =~~= expected);
    }
    if let Some(g) = &config.gamescope {
        let path = match inputs.gamescope_path {
            Some(p) => p,
            None => {
                return Err(missing_cli_tool_error("gamescope"));
            },
        };
        match g.as_command(path.as_str(), inputs.native_resolution) {
            Some(compositor_fragment) => fragments.push(compositor_fragment),
            None => {
                return Err(GameLauncherError::UnknownNativeResolution);
            },
        }
    }
    proof {
        expected = expected + gamescope_part(*config, inp);
        assert(fragments.deep_view() =~~= expected);
    }
    if config.fps_limit > 0 {
        let mut frag = match inputs.strangle_path {
            Some(p) => p,
            None => {
                return Err(missing_cli_tool_error("strangle"));
            },
        };
        proof {
            reveal_strlit(" ");
        }
        frag.append(" ");
        crate::text::append_dec_u64(&mut frag, config.fps_limit as u64);
        fragments.push(frag);
    }
    proof {
        expected = expected + strangle_part(*config, inp);
        assert(fragments.deep_view() =~~= expected);
    }
    match config.vulkan_driver.as_command() {
        Some(tool) => {
            match inputs.vulkan_path {
                Some(p) => fragments.push(p),
                None => {
                    return Err(missing_cli_tool_error(tool));
                },
            }
        },
        None => {},
    }
    proof {
        expected = expected + vulkan_part(*config, inp);
        assert(fragments.deep_view() =~~= expected);
        assert(expected =~~= wrapper_fragments_spec(*config, inp));
    }
    Ok(CommandPlan { wrapper_fragments: fragments, target: command.to_owned() })
}

/// Assembles the launch plan for `config` and target `command`, resolving
/// each enabled tool on the search path. The compositor's path can be
/// overridden instead of resolved; the native resolution, when needed, is
/// the caller's query outcome. A returned plan is exactly what
/// `assembly_outcome` names for some set of resolution outcomes consistent
/// with those fixed inputs; when no tool needs resolving and no native
/// query is owed, assembly cannot fail, and each failure is pinned to the
/// setting that asked for the tool or the query.
pub fn assemble(
    config: &GameConfig,
    command: &str,
    gamescope_path_override: Option<String>,
    native_resolution: Option<(u16, u16)>,
) -> (r: Result<CommandPlan, GameLauncherError>)
    ensures
        r matches Ok(p) ==> exists|inp: AssemblyInputs|
            inp.native_resolution == native_resolution && assembly_outcome(*config, inp)
                == AssemblyOutcome::Fragments(p.wrapper_fragments.deep_view()) && p.target@
                == command@,
        r matches Err(e) ==> (e matches GameLauncherError::MissingCliTool(n, h) && h@
            == missing_tool_hint(n@)) || e is UnknownNativeResolution,
        ({
            &&& !config.gamemode
            &&& !config.mangohud
            &&& config.fps_limit == 0
            &&& config.vulkan_driver == VulkanDriver::Default
            &&& match config.gamescope {
                None => true,
                Some(g) => gamescope_path_override is Some && resolution_argument_of(
                    g.source_resolution,
                    native_resolution,
                ) is Some,
            }
        }) ==> r is Ok,
        r matches Err(e) ==> (e is UnknownNativeResolution ==> (config.gamescope
            matches Some(g) && resolution_argument_of(
            g.source_resolution,
            native_resolution,
        ) is None)),
        r matches Err(e) ==> (e matches GameLauncherError::MissingCliTool(n, h) ==> {
            ||| n@ == "gamemoderun"@ && config.gamemode
            ||| n@ == "mangohud"@ && config.mangohud
            ||| n@ == "gamescope"@ && config.gamescope is Some && gamescope_path_override
                is None
            ||| n@ == "strangle"@ && config.fps_limit > 0
            ||| vulkan_tool(config.vulkan_driver) == Some(n@)
        }),
{
    let gamemode_path: Option<String> = if config.gamemode {
        resolve_tool("gamemoderun")
    } else {
        None
    };
    let mangohud_path: Option<String> = if config.mangohud {
        resolve_tool("mangohud")
    } else {
        None
    };
    let gamescope_path: Option<String> = if config.gamescope.is_some() {
        match gamescope_path_override {
            Some(p) => Some(p),
            None => resolve_tool("gamescope"),
        }
    } else {
        None
    };
    let strangle_path: Option<String> = if config.fps_limit > 0 {
        resolve_tool("strangle")
    } else {
        None
    };
    let vulkan_path: Option<String> = match config.vulkan_driver.as_command() {
        Some(tool) => resolve_tool(tool),
        None => None,
    };
    let inputs = AssemblyInputs {
        gamemode_path,
        mangohud_path,
        gamescope_path,
        strangle_path,
        vulkan_path,
        native_resolution,
    };
    let ghost inp = inputs;
    let r = build_command_plan(config, command, inputs);
    proof {
        if r is Ok {
            assert(inp.native_resolution == native_resolution && assembly_outcome(*config, inp)
                == AssemblyOutcome::Fragments(r.unwrap().wrapper_fragments.deep_view())
                && r.unwrap().target@ == command@);
        }
        match assembly_outcome(*config, inp) {
            AssemblyOutcome::MissingTool(name) => {
                if config.gamescope is Some && inp.gamescope_path is None {
                    assert(gamescope_path_override is None);
                }
                assert({
                    ||| name == "gamemoderun"@ && config.gamemode
                    ||| name == "mangohud"@ && config.mangohud
                    ||| name == "gamescope"@ && config.gamescope is Some && inp.gamescope_path
                        is None
                    ||| name == "strangle"@ && config.fps_limit > 0
                    ||| vulkan_tool(config.vulkan_driver) == Some(name)
                });
            },
            _ => {},
        }
    }
    r
}

/// The file name of a path: everything after the last `/`, or the whole
/// path when it has none.
pub open spec fn executable_file_name(path: Seq<char>) -> Seq<char> {
    match last_char_pos(path, '/') {
        Some(i) => path.subrange(i + 1, path.len() as int),
        None => path,
    }
}

/// The configuration file name a resolved executable is looked up under:
/// the executable's file name with `.ron` appended.
pub fn executable_config_file_name(executable_path: &str) -> (r: String)
    ensures
        r@ == executable_file_name(executable_path@) + ".ron"@,
{
    let len = executable_path.unicode_len();
    let mut last_slash: Option<usize> = None;
    let mut i: usize = 0;
    while i < len
        invariant
            len == executable_path@.len(),
            i <= len,
            match last_slash {
                Some(d) => last_char_pos(executable_path@.take(i as int), '/') == Some(
                    d as int,
                ) && d < i,
                None => last_char_pos(executable_path@.take(i as int), '/') is None,
            },
        decreases len - i,
    {
        proof {
            assert(executable_path@.take(i + 1).drop_last() =~= executable_path@.take(i as int));
        }
        if executable_path.get_char(i) == '/' {
            last_slash = Some(i);
        }
        i = i + 1;
    }
    proof {
        assert(executable_path@.take(len as int) =~= executable_path@);
        reveal_strlit(".ron");
    }
    let mut out: String;
    match last_slash {
        Some(d) => {
            out = executable_path.substring_char(d + 1, len).to_owned();
        },
        None => {
            out = executable_path.to_owned();
        },
    }
    out.append(".ron");
    proof {
        assert(out@ =~= executable_file_name(executable_path@) + ".ron"@);
    }
    out
}

/// The law the assembler obeys with the compositor disabled: the plan holds
/// no compositor fragment — its fragments are exactly the four
/// non-compositor parts in precedence order.
pub proof fn lemma_no_compositor_fragment(c: GameConfig, inp: AssemblyInputs)
    requires
        c.gamescope is None,
    ensures
        wrapper_fragments_spec(c, inp) == gamemode_part(c, inp) + mangohud_part(c, inp)
            + strangle_part(c, inp) + vulkan_part(c, inp),
{
    assert(wrapper_fragments_spec(c, inp) =~~= gamemode_part(c, inp) + mangohud_part(c, inp)
        + strangle_part(c, inp) + vulkan_part(c, inp));
}

/// The law that makes assembly deterministic: the outcome depends only on
/// the wrapper toggles and the resolution outcomes, never on anything else
/// — two assemblies whose toggles and outcomes agree produce the same
/// fragments byte for byte, or the same failure.
pub proof fn lemma_assembler_deterministic(
    c1: GameConfig,
    c2: GameConfig,
    i1: AssemblyInputs,
    i2: AssemblyInputs,
)
    requires
        c1.gamemode == c2.gamemode,
        c1.mangohud == c2.mangohud,
        c1.vulkan_driver == c2.vulkan_driver,
        c1.fps_limit == c2.fps_limit,
        c1.gamescope == c2.gamescope,
        i1.gamemode_path.deep_view() == i2.gamemode_path.deep_view(),
        i1.mangohud_path.deep_view() == i2.mangohud_path.deep_view(),
        i1.gamescope_path.deep_view() == i2.gamescope_path.deep_view(),
        i1.strangle_path.deep_view() == i2.strangle_path.deep_view(),
        i1.vulkan_path.deep_view() == i2.vulkan_path.deep_view(),
        i1.native_resolution == i2.native_resolution,
    ensures
        match (assembly_outcome(c1, i1), assembly_outcome(c2, i2)) {
            (AssemblyOutcome::Fragments(f1), AssemblyOutcome::Fragments(f2)) => f1 == f2,
            (AssemblyOutcome::MissingTool(n1), AssemblyOutcome::MissingTool(n2)) => n1 == n2,
            (AssemblyOutcome::NoNativeResolution, AssemblyOutcome::NoNativeResolution) => true,
            _ => false,
        },
{
    match (assembly_outcome(c1, i1), assembly_outcome(c2, i2)) {
        (AssemblyOutcome::Fragments(f1), AssemblyOutcome::Fragments(f2)) => {
            assert(f1 =~~= f2);
        },
        _ => {},
    }
}

} // verus!
