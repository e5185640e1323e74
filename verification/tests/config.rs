use gtnkr::cli::launch_subcommand_parser;
use gtnkr::cli::steam_app_id;
use gtnkr::config::config_file::GameConfigError;
use gtnkr::config::config_file::GameConfigFile;
use gtnkr::config::config_file::ReadFailure;
use gtnkr::config::default_values;
use gtnkr::config::gamescope::GamescopeBackend;
use gtnkr::config::screen_resolution::parse_xrandr_resolution;
use gtnkr::config::screen_resolution::ScreenResolution;
use gtnkr::config::vulkan_driver::VulkanDriver;
use gtnkr::config::GameConfig;
use gtnkr::config::Gamescope;
use gtnkr::config::Launch;

#[test]
fn default_values_match_the_built_in_configuration() {
    assert!(default_values::gamemode());
    assert!(default_values::mangohud());
    assert_eq!(default_values::vulkan_driver(), VulkanDriver::Amdvlk);
    assert!(default_values::environment_variables().is_empty());
    assert_eq!(default_values::source_resolution(), ScreenResolution::Native);
    assert!(default_values::start_as_fullscreen());
    assert!(default_values::force_grab_cursor());
    assert!(default_values::tearing());
    let gamescope = default_values::gamescope();
    assert_eq!(gamescope.source_resolution, ScreenResolution::Native);
    assert!(gamescope.start_as_fullscreen);
    assert!(gamescope.force_grab_cursor);
    assert!(gamescope.tearing);
    assert!(gamescope.steam_overlay_fix);
    assert!(gamescope.mangoapp);
    assert!(!gamescope.expose_wayland);
}

#[test]
fn game_config_default_enables_the_compositor() {
    let config = GameConfig::default();
    assert!(config.gamemode);
    assert!(config.mangohud);
    assert_eq!(config.vulkan_driver, VulkanDriver::Default);
    assert_eq!(config.fps_limit, 0);
    assert!(config.gamescope.is_some());
    assert!(config.environment_variables.is_empty());
}

#[test]
fn launch_default_mirrors_the_default_values() {
    let launch = Launch::default();
    assert!(launch.gamemode);
    assert!(launch.mangohud);
    assert_eq!(launch.vulkan_driver, VulkanDriver::Amdvlk);
    assert!(launch.environment_variables.is_empty());
}

#[test]
fn gamescope_default_backend_is_auto() {
    assert_eq!(Gamescope::default().backend, GamescopeBackend::Auto);
    assert_eq!(GamescopeBackend::default(), GamescopeBackend::Auto);
}

#[test]
fn backend_command_arguments() {
    assert_eq!(GamescopeBackend::Auto.as_gamescope_command_argument(), "--backend auto");
    assert_eq!(GamescopeBackend::Wayland.as_gamescope_command_argument(), "--backend wayland");
}

#[test]
fn custom_resolution_argument_is_exact() {
    let arg = ScreenResolution::Custom(1920, 1080).as_gamescope_command_argument(None);
    assert_eq!(arg.unwrap(), "-w 1920 -h 1080");
}

#[test]
fn native_resolution_argument_needs_a_query_result() {
    assert_eq!(ScreenResolution::Native.as_gamescope_command_argument(None), None);
    let arg = ScreenResolution::Native.as_gamescope_command_argument(Some((800, 600)));
    assert_eq!(arg.unwrap(), "-w 800 -h 600");
}

#[test]
fn vulkan_driver_commands() {
    assert_eq!(VulkanDriver::Default.as_command(), None);
    assert_eq!(VulkanDriver::Amdvlk.as_command(), Some("vk_amdvlk"));
    assert_eq!(VulkanDriver::Radv.as_command(), Some("vk_radv"));
}

#[test]
fn config_file_is_located_in_the_override_directory() {
    let file = GameConfigFile::locate("vlc", "alice", Some(String::from("/tmp/configs"))).unwrap();
    assert_eq!(file.path, "/tmp/configs/vlc.ron");
}

#[test]
fn config_file_extension_is_replaced_with_ron() {
    let file =
        GameConfigFile::locate("test_config.ron", "alice", Some(String::from("/d"))).unwrap();
    assert_eq!(file.path, "/d/test_config.ron");
    let file = GameConfigFile::locate("game.exe", "alice", Some(String::from("/d"))).unwrap();
    assert_eq!(file.path, "/d/game.ron");
}

#[test]
fn config_file_extension_only_touches_the_file_name() {
    let file = GameConfigFile::locate("dir.v1/game", "alice", Some(String::from("/d"))).unwrap();
    assert_eq!(file.path, "/d/dir.v1/game.ron");
    let file = GameConfigFile::locate(".hidden", "alice", Some(String::from("/d"))).unwrap();
    assert_eq!(file.path, "/d/.hidden.ron");
}

#[test]
fn config_file_defaults_to_the_home_directory() {
    let file = GameConfigFile::locate("vlc", "alice", None).unwrap();
    assert_eq!(file.path, "/home/alice/.config/gtnkr/game_configs/vlc.ron");
}

#[test]
fn root_has_no_config_directory() {
    let err = GameConfigFile::locate("vlc", "root", None).unwrap_err();
    assert!(matches!(err, GameConfigError::UserIsRoot));
}

#[test]
fn read_failures_name_the_file() {
    let file = GameConfigFile { path: String::from("/d/vlc.ron") };
    match file.read_error(ReadFailure::NotFound) {
        GameConfigError::NotFound(path) => assert_eq!(path, "/d/vlc.ron"),
        other => panic!("expected a not-found error, got {other:?}"),
    }
    match file.read_error(ReadFailure::PermissionDenied) {
        GameConfigError::PermissionDenied(path) => assert_eq!(path, "/d/vlc.ron"),
        other => panic!("expected a permission error, got {other:?}"),
    }
    match file.read_error(ReadFailure::InvalidEncoding(String::from("bad utf-8"))) {
        GameConfigError::InvalidFileEncoding(path, text) => {
            assert_eq!(path, "/d/vlc.ron");
            assert_eq!(text, "bad utf-8");
        }
        other => panic!("expected an encoding error, got {other:?}"),
    }
    match file.read_error(ReadFailure::Other(String::from("interrupted"))) {
        GameConfigError::UnexpectedIoError(text) => assert_eq!(text, "interrupted"),
        other => panic!("expected an io error, got {other:?}"),
    }
}

#[test]
fn steam_launch_command_yields_its_app_id() {
    let command = "~/.local/share/Steam/ubuntu12_32/reaper SteamLaunch AppId=440 -- game";
    assert_eq!(steam_app_id(command), Some(440));
    let parsed = launch_subcommand_parser(command).unwrap();
    assert_eq!(parsed.0, command);
    assert_eq!(parsed.1, 440);
}

#[test]
fn non_steam_command_is_rejected() {
    let err = launch_subcommand_parser("plain-game --flag").unwrap_err();
    assert_eq!(err, "Provided argument is not a valid Steam launch %command%");
    assert_eq!(steam_app_id("SteamLaunch AppId=x"), None);
}

#[test]
fn xrandr_report_yields_the_connected_resolution() {
    let output = "Screen 0: minimum 320 x 200\n\
                  eDP-1 connected primary 1920x1080+0+0 (normal left) 344mm x 194mm\n\
                  HDMI-1 disconnected (normal left inverted)\n";
    assert_eq!(parse_xrandr_resolution(output), None);
    let output = "eDP-1 connected 2560x1440+0+0 (normal left) 344mm x 194mm";
    assert_eq!(parse_xrandr_resolution(output), Some((2560, 1440)));
}

#[test]
fn xrandr_report_without_a_mode_yields_nothing() {
    assert_eq!(parse_xrandr_resolution("HDMI-1 disconnected"), None);
    assert_eq!(parse_xrandr_resolution(""), None);
    assert_eq!(parse_xrandr_resolution("eDP-1 connected 70000x1440"), None);
}
