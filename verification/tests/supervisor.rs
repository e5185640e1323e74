use gtnkr::game_launcher::display_discovery::DiscoveryOutcome;
use gtnkr::game_launcher::supervisor::GameLauncher;
use gtnkr::game_launcher::supervisor::LaunchAction;
use gtnkr::game_launcher::supervisor::LaunchEvent;
use gtnkr::game_launcher::supervisor::LogCopyPolicy;
use gtnkr::game_launcher::supervisor::SignalOutcome;
use gtnkr::game_launcher::CommandPlan;
use gtnkr::game_launcher::GameLauncherError;

fn plan(fragments: &[&str], target: &str) -> CommandPlan {
    CommandPlan {
        wrapper_fragments: fragments.iter().map(|f| String::from(*f)).collect(),
        target: String::from(target),
    }
}

#[test]
fn launch_without_compositor_spawns_target_directly() {
    let plan = plan(&["gamemoderun"], "game");
    let (mut launcher, action) = GameLauncher::start(&plan, None, false, false, LogCopyPolicy::FailLaunch);
    assert_eq!(action, LaunchAction::SpawnTarget(String::from("gamemoderun game")));
    let action = launcher.advance(LaunchEvent::TargetExited);
    assert_eq!(action, LaunchAction::Finished);
    assert!(launcher.is_done());
    assert!(launcher.result().is_ok());
}

#[test]
fn scenario_full_launch_with_discovery_and_restore() {
    let plan = plan(&["gamescope -- "], "game");
    let (mut launcher, action) =
        GameLauncher::start(&plan, Some(String::from("gamescope")), true, false, LogCopyPolicy::FailLaunch);
    assert_eq!(action, LaunchAction::SpawnCompositor(String::from("gamescope")));
    let action = launcher.advance(LaunchEvent::CompositorSpawned(4711));
    assert_eq!(action, LaunchAction::AwaitDiscovery);
    let action = launcher.advance(LaunchEvent::DiscoveryFinished(DiscoveryOutcome::Found(3)));
    assert_eq!(action, LaunchAction::OverrideDisplay(3));
    let action = launcher.advance(LaunchEvent::DisplayOverrideApplied(Some(String::from(":0"))));
    assert_eq!(action, LaunchAction::SpawnTarget(String::from("gamescope --  game")));
    // The target exiting — with whatever status — starts teardown.
    let action = launcher.advance(LaunchEvent::TargetExited);
    assert_eq!(action, LaunchAction::SignalCompositor(4711));
    let action = launcher.advance(LaunchEvent::CompositorSignaled(SignalOutcome::Delivered));
    assert_eq!(action, LaunchAction::ReapCompositor(4711));
    // Restoration comes after teardown, with the exact saved value.
    let action = launcher.advance(LaunchEvent::CompositorReaped(None));
    assert_eq!(action, LaunchAction::RestoreDisplay(Some(String::from(":0"))));
    let action = launcher.advance(LaunchEvent::DisplayRestored);
    assert_eq!(action, LaunchAction::Finished);
    assert!(launcher.is_done());
    assert!(launcher.result().is_ok());
}

#[test]
fn unset_display_is_restored_as_unset() {
    let plan = plan(&[], "game");
    let (mut launcher, _) = GameLauncher::start(&plan, Some(String::from("gamescope")), true, false, LogCopyPolicy::FailLaunch);
    launcher.advance(LaunchEvent::CompositorSpawned(7));
    launcher.advance(LaunchEvent::DiscoveryFinished(DiscoveryOutcome::Found(1)));
    let action = launcher.advance(LaunchEvent::DisplayOverrideApplied(None));
    assert_eq!(action, LaunchAction::SpawnTarget(String::from("game")));
    launcher.advance(LaunchEvent::TargetExited);
    launcher.advance(LaunchEvent::CompositorSignaled(SignalOutcome::NoSuchProcess));
    let done = launcher.advance(LaunchEvent::DisplayRestored);
    assert_eq!(done, LaunchAction::Finished);
    assert!(launcher.result().is_ok());
}

#[test]
fn discovery_not_found_proceeds_without_override() {
    let plan = plan(&[], "game");
    let (mut launcher, _) = GameLauncher::start(&plan, Some(String::from("gamescope")), true, false, LogCopyPolicy::FailLaunch);
    launcher.advance(LaunchEvent::CompositorSpawned(7));
    let action = launcher.advance(LaunchEvent::DiscoveryFinished(DiscoveryOutcome::NotFound));
    assert_eq!(action, LaunchAction::SpawnTarget(String::from("game")));
    launcher.advance(LaunchEvent::TargetExited);
    // No display was overridden, so after teardown nothing is restored.
    let action = launcher.advance(LaunchEvent::CompositorSignaled(SignalOutcome::Delivered));
    assert_eq!(action, LaunchAction::ReapCompositor(7));
    let action = launcher.advance(LaunchEvent::CompositorReaped(None));
    assert_eq!(action, LaunchAction::Finished);
    assert!(launcher.result().is_ok());
}

#[test]
fn teardown_happens_once_even_when_target_spawn_fails() {
    let plan = plan(&[], "game");
    let (mut launcher, _) =
        GameLauncher::start(&plan, Some(String::from("gamescope")), false, false, LogCopyPolicy::FailLaunch);
    launcher.advance(LaunchEvent::CompositorSpawned(99));
    // The target never started; the compositor must still be torn down.
    let action = launcher.advance(LaunchEvent::TargetSpawnFailed(String::from("sh not found")));
    assert_eq!(action, LaunchAction::SignalCompositor(99));
    let action = launcher.advance(LaunchEvent::CompositorSignaled(SignalOutcome::Delivered));
    assert_eq!(action, LaunchAction::ReapCompositor(99));
    let action = launcher.advance(LaunchEvent::CompositorReaped(None));
    assert_eq!(action, LaunchAction::Finished);
    assert!(launcher.is_done());
    match launcher.result() {
        Err(GameLauncherError::RunCommand(msg)) => assert_eq!(msg, "sh not found"),
        other => panic!("expected the spawn failure to be reported, got {other:?}"),
    }
}

#[test]
fn scenario_d_no_such_process_is_successful_teardown() {
    let plan = plan(&[], "game");
    let (mut launcher, _) =
        GameLauncher::start(&plan, Some(String::from("gamescope")), false, false, LogCopyPolicy::FailLaunch);
    launcher.advance(LaunchEvent::CompositorSpawned(5));
    launcher.advance(LaunchEvent::TargetExited);
    // The compositor already exited on its own: teardown succeeded.
    let action = launcher.advance(LaunchEvent::CompositorSignaled(SignalOutcome::NoSuchProcess));
    assert_eq!(action, LaunchAction::Finished);
    assert!(launcher.is_done());
    assert!(launcher.result().is_ok());
}

#[test]
fn reap_failure_does_not_fail_the_launch() {
    let plan = plan(&[], "game");
    let (mut launcher, _) =
        GameLauncher::start(&plan, Some(String::from("gamescope")), false, false, LogCopyPolicy::FailLaunch);
    launcher.advance(LaunchEvent::CompositorSpawned(5));
    launcher.advance(LaunchEvent::TargetExited);
    launcher.advance(LaunchEvent::CompositorSignaled(SignalOutcome::Delivered));
    let action = launcher.advance(LaunchEvent::CompositorReaped(Some(String::from("interrupted"))));
    assert_eq!(action, LaunchAction::Finished);
    assert!(launcher.result().is_ok());
}

#[test]
fn compositor_spawn_failure_ends_the_launch() {
    let plan = plan(&[], "game");
    let (mut launcher, _) =
        GameLauncher::start(&plan, Some(String::from("gamescope")), true, false, LogCopyPolicy::FailLaunch);
    let action = launcher.advance(LaunchEvent::CompositorSpawnFailed(String::from("no exec")));
    assert_eq!(action, LaunchAction::Finished);
    match launcher.result() {
        Err(GameLauncherError::RunCommand(msg)) => assert_eq!(msg, "no exec"),
        other => panic!("expected the spawn failure to be reported, got {other:?}"),
    }
}

#[test]
fn persistent_log_is_copied_after_success() {
    let plan = plan(&[], "game");
    let (mut launcher, action) = GameLauncher::start(&plan, None, false, true, LogCopyPolicy::FailLaunch);
    assert_eq!(action, LaunchAction::SpawnTarget(String::from("game")));
    let action = launcher.advance(LaunchEvent::TargetExited);
    assert_eq!(action, LaunchAction::CopyLog);
    let action = launcher.advance(LaunchEvent::LogCopied(None));
    assert_eq!(action, LaunchAction::Finished);
    assert!(launcher.result().is_ok());
}

#[test]
fn log_copy_failure_is_reported_separately() {
    let plan = plan(&[], "game");
    let (mut launcher, _) = GameLauncher::start(&plan, None, false, true, LogCopyPolicy::FailLaunch);
    launcher.advance(LaunchEvent::TargetExited);
    let copy_failure = gtnkr::process_output_log::ProcessOutputLogError::CopyRuntimeToPersistent(
        String::from("disk full"),
        String::from("/run/a"),
        String::from("/home/b"),
    );
    let action = launcher.advance(LaunchEvent::LogCopied(Some(copy_failure)));
    assert_eq!(action, LaunchAction::Finished);
    match launcher.result() {
        Err(GameLauncherError::ProcessOutputLog(_)) => {}
        other => panic!("expected the copy failure to be reported, got {other:?}"),
    }
}

#[test]
fn log_copy_failure_can_be_report_only() {
    let plan = plan(&[], "game");
    let (mut launcher, _) =
        GameLauncher::start(&plan, None, false, true, LogCopyPolicy::ReportOnly);
    launcher.advance(LaunchEvent::TargetExited);
    let copy_failure = gtnkr::process_output_log::ProcessOutputLogError::CopyRuntimeToPersistent(
        String::from("disk full"),
        String::from("/run/a"),
        String::from("/home/b"),
    );
    let action = launcher.advance(LaunchEvent::LogCopied(Some(copy_failure)));
    assert_eq!(action, LaunchAction::Finished);
    assert!(launcher.result().is_ok());
}

#[test]
fn expects_event_follows_the_stage() {
    let plan = plan(&[], "game");
    let (launcher, _) = GameLauncher::start(&plan, Some(String::from("gamescope")), false, false, LogCopyPolicy::FailLaunch);
    assert!(launcher.expects_event(&LaunchEvent::CompositorSpawned(1)));
    assert!(!launcher.expects_event(&LaunchEvent::TargetExited));
}
