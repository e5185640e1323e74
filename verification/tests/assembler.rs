use gtnkr::config::gamescope::Gamescope;
use gtnkr::config::gamescope::GamescopeBackend;
use gtnkr::config::screen_resolution::ScreenResolution;
use gtnkr::config::vulkan_driver::VulkanDriver;
use gtnkr::config::GameConfig;
use gtnkr::game_launcher::assemble;
use gtnkr::game_launcher::build_command_plan;
use gtnkr::game_launcher::executable_config_file_name;
use gtnkr::game_launcher::find_executable_gml;
use gtnkr::game_launcher::missing_cli_tool_error;
use gtnkr::game_launcher::AssemblyInputs;
use gtnkr::game_launcher::CommandPlan;
use gtnkr::game_launcher::GameLauncherError;

fn no_tools() -> AssemblyInputs {
    AssemblyInputs {
        gamemode_path: None,
        mangohud_path: None,
        gamescope_path: None,
        strangle_path: None,
        vulkan_path: None,
        native_resolution: None,
    }
}

fn bare_config() -> GameConfig {
    GameConfig {
        gamemode: false,
        mangohud: false,
        vulkan_driver: VulkanDriver::Default,
        fps_limit: 0,
        gamescope: None,
        environment_variables: Vec::new(),
    }
}

fn scenario_a_gamescope() -> Gamescope {
    Gamescope {
        source_resolution: ScreenResolution::Custom(1920, 1080),
        start_as_fullscreen: true,
        force_grab_cursor: false,
        tearing: true,
        steam_overlay_fix: true,
        mangoapp: false,
        backend: GamescopeBackend::Auto,
        expose_wayland: false,
    }
}

#[test]
fn compositor_disabled_plan_has_no_compositor_fragment() {
    let mut config = bare_config();
    config.gamemode = true;
    config.fps_limit = 60;
    let inputs = AssemblyInputs {
        gamemode_path: Some(String::from("/usr/bin/gamemoderun")),
        strangle_path: Some(String::from("/usr/bin/strangle")),
        ..no_tools()
    };
    let plan = build_command_plan(&config, "run-game", inputs).unwrap();
    assert_eq!(
        plan.wrapper_fragments,
        vec![
            String::from("/usr/bin/gamemoderun"),
            String::from("/usr/bin/strangle 60"),
        ]
    );
    for fragment in &plan.wrapper_fragments {
        assert!(!fragment.contains("gamescope"));
    }
    assert_eq!(plan.target, "run-game");
}

#[test]
fn scenario_a_compositor_fragment_flags() {
    let mut config = bare_config();
    config.gamescope = Some(scenario_a_gamescope());
    let inputs = AssemblyInputs {
        gamescope_path: Some(String::from("gamescope")),
        ..no_tools()
    };
    let plan = build_command_plan(&config, "run-game", inputs).unwrap();
    assert_eq!(plan.wrapper_fragments.len(), 1);
    let fragment = &plan.wrapper_fragments[0];
    assert!(fragment.contains("-w 1920 -h 1080"));
    assert!(fragment.contains("--fullscreen"));
    assert!(fragment.contains("--immediate-flips"));
    assert!(!fragment.contains("--force-grab-cursor"));
    assert_eq!(fragment, "gamescope -w 1920 -h 1080 --fullscreen --immediate-flips");
}

#[test]
fn assembly_is_deterministic() {
    let mut config = bare_config();
    config.gamemode = true;
    config.mangohud = true;
    config.vulkan_driver = VulkanDriver::Radv;
    config.fps_limit = 144;
    config.gamescope = Some(scenario_a_gamescope());
    let inputs = || AssemblyInputs {
        gamemode_path: Some(String::from("/bin/gamemoderun")),
        mangohud_path: Some(String::from("/bin/mangohud")),
        gamescope_path: Some(String::from("/bin/gamescope")),
        strangle_path: Some(String::from("/bin/strangle")),
        vulkan_path: Some(String::from("/bin/vk_radv")),
        native_resolution: None,
    };
    let first = build_command_plan(&config, "run-game", inputs()).unwrap();
    let second = build_command_plan(&config, "run-game", inputs()).unwrap();
    assert_eq!(first.wrapper_fragments, second.wrapper_fragments);
    assert_eq!(first.joined(), second.joined());
    assert_eq!(
        first.joined(),
        "/bin/gamemoderun /bin/mangohud /bin/gamescope -w 1920 -h 1080 --fullscreen \
         --immediate-flips /bin/strangle 144 /bin/vk_radv run-game"
    );
}

#[test]
fn wrapper_order_follows_precedence() {
    let mut config = bare_config();
    config.gamemode = true;
    config.mangohud = true;
    config.vulkan_driver = VulkanDriver::Amdvlk;
    config.fps_limit = 30;
    let inputs = AssemblyInputs {
        gamemode_path: Some(String::from("gm")),
        mangohud_path: Some(String::from("mh")),
        strangle_path: Some(String::from("st")),
        vulkan_path: Some(String::from("vk")),
        ..no_tools()
    };
    let plan = build_command_plan(&config, "game", inputs).unwrap();
    assert_eq!(
        plan.wrapper_fragments,
        vec![
            String::from("gm"),
            String::from("mh"),
            String::from("st 30"),
            String::from("vk"),
        ]
    );
    assert_eq!(plan.joined(), "gm mh st 30 vk game");
}

#[test]
fn missing_gamemode_tool_aborts_assembly() {
    let mut config = bare_config();
    config.gamemode = true;
    let err = build_command_plan(&config, "game", no_tools()).unwrap_err();
    match err {
        GameLauncherError::MissingCliTool(name, hint) => {
            assert_eq!(name, "gamemoderun");
            assert_eq!(hint, "[gamemode](https://github.com/FeralInteractive/gamemode)");
        }
        other => panic!("expected a missing-tool error, got {other:?}"),
    }
}

#[test]
fn missing_strangle_tool_carries_the_frame_limiter_hint() {
    let err = missing_cli_tool_error("strangle");
    match err {
        GameLauncherError::MissingCliTool(name, hint) => {
            assert_eq!(name, "strangle");
            assert_eq!(hint, "[libstrangle](https://github.com/milaq/libstrangle)");
        }
        other => panic!("expected a missing-tool error, got {other:?}"),
    }
}

#[test]
fn native_resolution_unknown_aborts_assembly() {
    let mut config = bare_config();
    let mut gamescope = scenario_a_gamescope();
    gamescope.source_resolution = ScreenResolution::Native;
    config.gamescope = Some(gamescope);
    let inputs = AssemblyInputs {
        gamescope_path: Some(String::from("gamescope")),
        ..no_tools()
    };
    let err = build_command_plan(&config, "game", inputs).unwrap_err();
    assert!(matches!(err, GameLauncherError::UnknownNativeResolution));
}

#[test]
fn native_resolution_query_outcome_is_used() {
    let mut config = bare_config();
    let mut gamescope = scenario_a_gamescope();
    gamescope.source_resolution = ScreenResolution::Native;
    config.gamescope = Some(gamescope);
    let inputs = AssemblyInputs {
        gamescope_path: Some(String::from("gamescope")),
        native_resolution: Some((2560, 1440)),
        ..no_tools()
    };
    let plan = build_command_plan(&config, "game", inputs).unwrap();
    assert!(plan.wrapper_fragments[0].contains("-w 2560 -h 1440"));
}

#[test]
fn unresolvable_tool_reports_missing() {
    let err = find_executable_gml("gtnkr-test-tool-that-does-not-exist").unwrap_err();
    match err {
        GameLauncherError::MissingCliTool(name, hint) => {
            assert_eq!(name, "gtnkr-test-tool-that-does-not-exist");
            assert_eq!(hint, "<[Undefined, please create an issue]>");
        }
        other => panic!("expected a missing-tool error, got {other:?}"),
    }
}

#[test]
fn assemble_without_wrappers_always_succeeds() {
    let config = bare_config();
    let plan = assemble(&config, "run-game", None, None).unwrap();
    assert!(plan.wrapper_fragments.is_empty());
    assert_eq!(plan.target, "run-game");
    assert_eq!(plan.joined(), "run-game");
}

#[test]
fn assemble_with_overridden_compositor_path_succeeds() {
    let mut config = bare_config();
    config.gamescope = Some(scenario_a_gamescope());
    let plan =
        assemble(&config, "run-game", Some(String::from("/opt/gamescope")), None).unwrap();
    assert_eq!(plan.wrapper_fragments.len(), 1);
    assert!(plan.wrapper_fragments[0].starts_with("/opt/gamescope "));
}

#[test]
fn plan_joined_without_wrappers_is_the_target() {
    let plan = CommandPlan {
        wrapper_fragments: Vec::new(),
        target: String::from("bare-game --flag"),
    };
    assert_eq!(plan.joined(), "bare-game --flag");
}

#[test]
fn executable_config_file_name_uses_the_file_name() {
    assert_eq!(executable_config_file_name("/usr/bin/vlc"), "vlc.ron");
    assert_eq!(executable_config_file_name("vlc"), "vlc.ron");
}
