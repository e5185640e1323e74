//! The launch supervisor: one state machine that owns the whole lifecycle
//! of a launch.
//!
//! The supervisor never touches a process or the environment itself. It
//! answers every event with the one action to perform next — spawn the
//! compositor, await display discovery, override the display variable,
//! spawn the target, signal and reap the compositor, restore the variable,
//! copy the log — and its invariant carries the obligations across every
//! path: once the compositor was spawned, teardown is attempted exactly
//! once before the launch ends, even when spawning the target failed; once
//! the display variable was overridden, it is restored exactly once, after
//! teardown; a launch without a compositor never touches the display
//! variable at all.

use crate::game_launcher::display_discovery::DiscoveryOutcome;
use crate::game_launcher::GameLauncherError;
use crate::game_launcher::CommandPlan;
use crate::process_output_log::ProcessOutputLogError;
use vstd::prelude::*;

verus! {

/// What delivering the teardown signal came to.
#[derive(Debug, Clone, PartialEq, Eq)]
pub enum SignalOutcome {
    /// The signal reached the process.
    Delivered,
    /// The process was already gone; teardown counts as done.
    NoSuchProcess,
    /// Delivery failed for another reason, described as text.
    Failed(String),
}

/// What the caller reports back to the supervisor.
#[derive(Debug, Clone, PartialEq, Eq)]
pub enum LaunchEvent {
    /// The compositor process started, with its process id.
    CompositorSpawned(u32),
    /// The compositor process could not be started.
    CompositorSpawnFailed(String),
    /// Display discovery delivered its single result.
    DiscoveryFinished(DiscoveryOutcome),
    /// The display variable was overridden; holds its previous value.
    DisplayOverrideApplied(Option<String>),
    /// The target process ran and exited, with whatever status.
    TargetExited,
    /// The target process could not be started.
    TargetSpawnFailed(String),
    /// The teardown signal was sent, with its outcome.
    CompositorSignaled(SignalOutcome),
    /// The compositor was reaped; holds the failure's text, if reaping
    /// failed.
    CompositorReaped(Option<String>),
    /// The display variable was restored to its saved value.
    DisplayRestored,
    /// The captured log was copied to persistent storage; holds the
    /// failure, if copying failed.
    LogCopied(Option<ProcessOutputLogError>),
}

/// What the caller must do next.
#[derive(Debug, Clone, PartialEq, Eq)]
pub enum LaunchAction {
    /// Spawn the compositor with its error stream captured.
    SpawnCompositor(String),
    /// Run display discovery on the compositor's error stream and report
    /// its single result.
    AwaitDiscovery,
    /// Override the display variable with the discovered display, saving
    /// its previous value.
    OverrideDisplay(u32),
    /// Spawn the full assembled command through the shell and await its
    /// exit.
    SpawnTarget(String),
    /// Send the interrupt signal to the compositor.
    SignalCompositor(u32),
    /// Await the signaled compositor's exit.
    ReapCompositor(u32),
    /// Restore the display variable to this saved value (`None`: unset it).
    RestoreDisplay(Option<String>),
    /// Copy the captured log to persistent storage.
    CopyLog,
    /// The launch is over; read the result.
    Finished,
}

/// What a failure to copy the captured log to persistent storage does to
/// the launch's reported outcome; the target's own success is never
/// swallowed silently either way, since the failure is reported in the
/// copy event itself.
#[derive(Debug, PartialEq, Eq, Structural, Clone, Copy)]
pub enum LogCopyPolicy {
    /// The launch reports the copy failure as its own failure.
    FailLaunch,
    /// The launch stays successful; the failure is only reported.
    ReportOnly,
}

/// Where the supervisor stands.
#[derive(Debug, PartialEq, Eq, Structural, Clone, Copy)]
pub enum LaunchStage {
    /// Awaiting the compositor spawn outcome.
    StartingCompositor,
    /// Awaiting display discovery's result.
    Discovering,
    /// Awaiting the display-variable override.
    OverridingDisplay,
    /// Awaiting the target's spawn and exit.
    RunningTarget,
    /// Awaiting the teardown signal's outcome.
    SignalingCompositor,
    /// Awaiting the compositor's reap.
    ReapingCompositor,
    /// Awaiting the display-variable restore.
    RestoringDisplay,
    /// Awaiting the log copy.
    CopyingLog,
    /// The launch is over.
    Done,
}

/// The supervisor of one launch.
pub struct GameLauncher {
    stage: LaunchStage,
    fix_overlay: bool,
    persistent_log: bool,
    log_copy_policy: LogCopyPolicy,
    target_command: String,
    compositor: Option<u32>,
    compositor_spawned: bool,
    display_override: Option<u32>,
    env_snapshot: Option<Option<String>>,
    override_count: u32,
    teardown_count: u32,
    restore_count: u32,
    failure: Option<GameLauncherError>,
}

impl GameLauncher {
    /// Where the supervisor stands.
    pub closed spec fn stage(self) -> LaunchStage {
        self.stage
    }

    /// Whether a compositor process was created during this launch.
    pub closed spec fn compositor_spawned(self) -> bool {
        self.compositor_spawned
    }

    /// The compositor handle currently owned, if any.
    pub closed spec fn compositor(self) -> Option<u32> {
        self.compositor
    }

    /// The discovered display, if discovery delivered one.
    pub closed spec fn display_override(self) -> Option<u32> {
        self.display_override
    }

    /// The saved previous value of the display variable, once overridden.
    pub closed spec fn env_snapshot(self) -> Option<Option<String>> {
        self.env_snapshot
    }

    /// Whether the display variable was overridden during this launch.
    pub open spec fn snapshot_taken(self) -> bool {
        self.env_snapshot() is Some
    }

    /// How many times the display variable was overridden.
    pub closed spec fn override_count(self) -> int {
        self.override_count as int
    }

    /// How many times teardown was attempted.
    pub closed spec fn teardown_count(self) -> int {
        self.teardown_count as int
    }

    /// How many times the display variable was restored.
    pub closed spec fn restore_count(self) -> int {
        self.restore_count as int
    }

    /// The failure the launch will report, if any arose so far.
    pub closed spec fn failure(self) -> Option<GameLauncherError> {
        self.failure
    }

    /// The single string the target is spawned with.
    pub closed spec fn target_command(self) -> Seq<char> {
        self.target_command@
    }

    /// The stage-independent part of the invariant.
    pub closed spec fn base_inv(self) -> bool {
        &&& (self.compositor is Some ==> self.compositor_spawned)
        &&& (!self.compositor_spawned ==> {
            &&& self.display_override is None
            &&& self.env_snapshot is None
            &&& self.override_count == 0
            &&& self.teardown_count == 0
            &&& self.restore_count == 0
        })
        &&& self.override_count == (if self.display_override is Some {
            1int
        } else {
            0int
        })
        &&& (self.env_snapshot is Some ==> self.display_override is Some)
    }

    /// What must have happened by each stage.
    pub closed spec fn stage_inv(self) -> bool {
        match self.stage {
            LaunchStage::StartingCompositor => {
                &&& !self.compositor_spawned
                &&& self.display_override is None
                &&& self.teardown_count == 0
                &&& self.restore_count == 0
                &&& self.failure is None
            },
            LaunchStage::Discovering => {
                &&& self.compositor is Some
                &&& self.fix_overlay
                &&& self.display_override is None
                &&& self.env_snapshot is None
                &&& self.teardown_count == 0
                &&& self.restore_count == 0
                &&& self.failure is None
            },
            LaunchStage::OverridingDisplay => {
                &&& self.compositor is Some
                &&& self.fix_overlay
                &&& self.display_override is Some
                &&& self.env_snapshot is None
                &&& self.teardown_count == 0
                &&& self.restore_count == 0
                &&& self.failure is None
            },
            LaunchStage::RunningTarget => {
                &&& (self.compositor_spawned <==> self.compositor is Some)
                &&& self.teardown_count == 0
                &&& self.restore_count == 0
            },
            LaunchStage::SignalingCompositor => {
                &&& self.compositor is Some
                &&& self.teardown_count == 1
                &&& self.restore_count == 0
            },
            LaunchStage::ReapingCompositor => {
                &&& self.compositor is Some
                &&& self.teardown_count == 1
                &&& self.restore_count == 0
            },
            LaunchStage::RestoringDisplay => {
                &&& self.compositor is None
                &&& self.teardown_count == (if self.compositor_spawned {
                    1int
                } else {
                    0int
                })
                &&& self.env_snapshot is Some
                &&& self.restore_count == 0
            },
            LaunchStage::CopyingLog => {
                &&& self.compositor is None
                &&& self.teardown_count == (if self.compositor_spawned {
                    1int
                } else {
                    0int
                })
                &&& self.restore_count == (if self.snapshot_taken() {
                    1int
                } else {
                    0int
                })
                &&& self.failure is None
                &&& self.persistent_log
            },
            LaunchStage::Done => {
                &&& self.compositor is None
                &&& self.teardown_count == (if self.compositor_spawned {
                    1int
                } else {
                    0int
                })
                &&& self.restore_count == (if self.snapshot_taken() {
                    1int
                } else {
                    0int
                })
            },
        }
    }

    /// The supervisor's invariant. It ties each stage to what must have
    /// happened by then, so that at `Done` the teardown and restore
    /// obligations have each been met exactly once where they were owed.
    pub open spec fn wf(self) -> bool {
        self.base_inv() && self.stage_inv()
    }

    /// Which events the supervisor can take next.
    pub open spec fn expects(self, event: LaunchEvent) -> bool {
        match self.stage() {
            LaunchStage::StartingCompositor => event matches LaunchEvent::CompositorSpawned(_)
                || event matches LaunchEvent::CompositorSpawnFailed(_),
            LaunchStage::Discovering => event matches LaunchEvent::DiscoveryFinished(_),
            LaunchStage::OverridingDisplay => event
                matches LaunchEvent::DisplayOverrideApplied(_),
            LaunchStage::RunningTarget => event == LaunchEvent::TargetExited || event
                matches LaunchEvent::TargetSpawnFailed(_),
            LaunchStage::SignalingCompositor => event
                matches LaunchEvent::CompositorSignaled(_),
            LaunchStage::ReapingCompositor => event matches LaunchEvent::CompositorReaped(_),
            LaunchStage::RestoringDisplay => event == LaunchEvent::DisplayRestored,
            LaunchStage::CopyingLog => event matches LaunchEvent::LogCopied(_),
            LaunchStage::Done => false,
        }
    }

    /// Begins a launch of the assembled plan. With a compositor command the
    /// first action spawns the compositor; without one the target is
    /// spawned directly.
    pub fn start(
        plan: &CommandPlan,
        compositor_command: Option<String>,
        fix_overlay: bool,
        persistent_log: bool,
        log_copy_policy: LogCopyPolicy,
    ) -> (r: (GameLauncher, LaunchAction))
        ensures
            r.0.wf(),
            r.0.target_command() == plan.joined_spec(),
            r.0.fix_overlay_spec() == fix_overlay,
            r.0.persistent_log_spec() == persistent_log,
            r.0.log_copy_policy_spec() == log_copy_policy,
            !r.0.compositor_spawned(),
            !r.0.snapshot_taken(),
            r.0.failure() is None,
            match compositor_command {
                Some(c) => {
                    &&& r.0.stage() == LaunchStage::StartingCompositor
                    &&& r.1 matches LaunchAction::SpawnCompositor(cmd) && cmd@ == c@
                },
                None => {
                    &&& r.0.stage() == LaunchStage::RunningTarget
                    &&& r.1 matches LaunchAction::SpawnTarget(cmd) && cmd@ == plan.joined_spec()
                },
            },
    {
        let target_command = plan.joined();
        match compositor_command {
            Some(c) => {
                let s = GameLauncher {
                    stage: LaunchStage::StartingCompositor,
                    fix_overlay,
                    persistent_log,
                    log_copy_policy,
                    target_command,
                    compositor: None,
                    compositor_spawned: false,
                    display_override: None,
                    env_snapshot: None,
                    override_count: 0,
                    teardown_count: 0,
                    restore_count: 0,
                    failure: None,
                };
                (s, LaunchAction::SpawnCompositor(c))
            },
            None => {
                let action = LaunchAction::SpawnTarget(target_command.clone());
                let s = GameLauncher {
                    stage: LaunchStage::RunningTarget,
                    fix_overlay,
                    persistent_log,
                    log_copy_policy,
                    target_command,
                    compositor: None,
                    compositor_spawned: false,
                    display_override: None,
                    env_snapshot: None,
                    override_count: 0,
                    teardown_count: 0,
                    restore_count: 0,
                    failure: None,
                };
                (s, action)
            },
        }
    }

    /// The step after teardown: restore the display variable if it was
    /// overridden, otherwise head for the end of the launch.
    fn after_teardown(&mut self) -> (r: LaunchAction)
        requires
            old(self).base_inv(),
            old(self).compositor() is None,
            old(self).teardown_count() == (if old(self).compositor_spawned() {
                1int
            } else {
                0int
            }),
            old(self).restore_count() == 0,
        ensures
            final(self).wf(),
            final(self).target_command() == old(self).target_command(),
            final(self).fix_overlay_spec() == old(self).fix_overlay_spec(),
            final(self).persistent_log_spec() == old(self).persistent_log_spec(),
            final(self).log_copy_policy_spec() == old(self).log_copy_policy_spec(),
            final(self).compositor_spawned() == old(self).compositor_spawned(),
            final(self).compositor() == old(self).compositor(),
            final(self).env_snapshot() == old(self).env_snapshot(),
            final(self).teardown_count() == old(self).teardown_count(),
            final(self).failure() == old(self).failure(),
            match old(self).env_snapshot() {
                Some(prev) => {
                    &&& final(self).stage() == LaunchStage::RestoringDisplay
                    &&& final(self).restore_count() == 0
                    &&& r matches LaunchAction::RestoreDisplay(p) && p.deep_view()
                        == prev.deep_view()
                },
                None => {
                    &&& final(self).restore_count() == 0
                    &&& finish_shape(*old(self), *final(self), r)
                },
            },
    {
        match &self.env_snapshot {
            Some(prev) => {
                let saved: Option<String> = match prev {
                    Some(s) => Some(s.clone()),
                    None => None,
                };
                self.stage = LaunchStage::RestoringDisplay;
                LaunchAction::RestoreDisplay(saved)
            },
            None => self.finish(),
        }
    }

    /// The end of a launch: copy the log when one was requested and nothing
    /// failed, otherwise report.
    fn finish(&mut self) -> (r: LaunchAction)
        requires
            old(self).base_inv(),
            old(self).compositor() is None,
            old(self).teardown_count() == (if old(self).compositor_spawned() {
                1int
            } else {
                0int
            }),
            old(self).restore_count() == (if old(self).snapshot_taken() {
                1int
            } else {
                0int
            }),
        ensures
            final(self).wf(),
            final(self).target_command() == old(self).target_command(),
            final(self).fix_overlay_spec() == old(self).fix_overlay_spec(),
            final(self).persistent_log_spec() == old(self).persistent_log_spec(),
            final(self).log_copy_policy_spec() == old(self).log_copy_policy_spec(),
            final(self).compositor_spawned() == old(self).compositor_spawned(),
            final(self).compositor() == old(self).compositor(),
            final(self).env_snapshot() == old(self).env_snapshot(),
            final(self).teardown_count() == old(self).teardown_count(),
            final(self).restore_count() == old(self).restore_count(),
            final(self).failure() == old(self).failure(),
            finish_shape(*old(self), *final(self), r),
    {
        if self.failure.is_none() && self.persistent_log {
            self.stage = LaunchStage::CopyingLog;
            LaunchAction::CopyLog
        } else {
            self.stage = LaunchStage::Done;
            LaunchAction::Finished
        }
    }

    /// Feeds the supervisor the outcome of the action it asked for, and
    /// takes the next action. The contract pins every transition down.
    pub fn advance(&mut self, event: LaunchEvent) -> (r: LaunchAction)
        requires
            old(self).wf(),
            old(self).expects(event),
        ensures
            final(self).wf(),
            final(self).target_command() == old(self).target_command(),
            final(self).fix_overlay_spec() == old(self).fix_overlay_spec(),
            final(self).persistent_log_spec() == old(self).persistent_log_spec(),
            final(self).log_copy_policy_spec() == old(self).log_copy_policy_spec(),
            !(event matches LaunchEvent::CompositorSpawned(_)) ==> final(self).compositor_spawned()
                == old(self).compositor_spawned(),
            !(event matches LaunchEvent::DisplayOverrideApplied(_)) ==> final(self).env_snapshot()
                == old(self).env_snapshot(),
            !(event matches LaunchEvent::CompositorSpawned(_)) && !(event
                matches LaunchEvent::CompositorSignaled(_)) && !(event
                matches LaunchEvent::CompositorReaped(_)) ==> final(self).compositor() == old(
                self,
            ).compositor(),
            !(event matches LaunchEvent::CompositorSpawnFailed(_)) && !(event
                matches LaunchEvent::TargetSpawnFailed(_)) && !(event
                matches LaunchEvent::LogCopied(_)) ==> final(self).failure() == old(
                self,
            ).failure(),
            match event {
                LaunchEvent::CompositorSpawned(pid) => {
                    &&& final(self).compositor_spawned()
                    &&& final(self).compositor() == Some(pid)
                    &&& final(self).failure() is None
                    &&& if old(self).fix_overlay_spec() {
                        &&& final(self).stage() == LaunchStage::Discovering
                        &&& r == LaunchAction::AwaitDiscovery
                    } else {
                        &&& final(self).stage() == LaunchStage::RunningTarget
                        &&& r matches LaunchAction::SpawnTarget(cmd) && cmd@ == old(
                            self,
                        ).target_command()
                    }
                },
                LaunchEvent::CompositorSpawnFailed(msg) => {
                    &&& final(self).stage() == LaunchStage::Done
                    &&& !final(self).compositor_spawned()
                    &&& final(self).failure() matches Some(e) && (e
                        matches GameLauncherError::RunCommand(m) && m@ == msg@)
                    &&& r == LaunchAction::Finished
                },
                LaunchEvent::DiscoveryFinished(outcome) => {
                    match outcome {
                        DiscoveryOutcome::Found(n) => {
                            &&& final(self).stage() == LaunchStage::OverridingDisplay
                            &&& final(self).display_override() == Some(n)
                            &&& r == LaunchAction::OverrideDisplay(n)
                        },
                        DiscoveryOutcome::NotFound => {
                            &&& final(self).stage() == LaunchStage::RunningTarget
                            &&& final(self).display_override() is None
                            &&& !final(self).snapshot_taken()
                            &&& r matches LaunchAction::SpawnTarget(cmd) && cmd@ == old(
                                self,
                            ).target_command()
                        },
                    }
                },
                LaunchEvent::DisplayOverrideApplied(prev) => {
                    &&& final(self).stage() == LaunchStage::RunningTarget
                    &&& final(self).snapshot_taken()
                    &&& final(self).env_snapshot() matches Some(saved) && saved.deep_view()
                        == prev.deep_view()
                    &&& r matches LaunchAction::SpawnTarget(cmd) && cmd@ == old(
                        self,
                    ).target_command()
                },
                LaunchEvent::TargetExited => {
                    &&& final(self).failure() == old(self).failure()
                    &&& teardown_shape(*old(self), *final(self), r)
                },
                LaunchEvent::TargetSpawnFailed(msg) => {
                    &&& final(self).failure() matches Some(e) && (e
                        matches GameLauncherError::RunCommand(m) && m@ == msg@)
                    &&& teardown_shape(*old(self), *final(self), r)
                },
                LaunchEvent::CompositorSignaled(outcome) => {
                    match outcome {
                        SignalOutcome::Delivered => {
                            &&& final(self).stage() == LaunchStage::ReapingCompositor
                            &&& final(self).compositor() == old(self).compositor()
                            &&& r matches LaunchAction::ReapCompositor(pid) && old(
                                self,
                            ).compositor() == Some(pid)
                        },
                        _ => {
                            // An already-gone process or a failed delivery
                            // both end teardown; neither fails the launch.
                            &&& final(self).compositor() is None
                            &&& final(self).failure() == old(self).failure()
                            &&& after_teardown_shape(*old(self), *final(self), r)
                        },
                    }
                },
                LaunchEvent::CompositorReaped(_) => {
                    &&& final(self).compositor() is None
                    &&& final(self).failure() == old(self).failure()
                    &&& after_teardown_shape(*old(self), *final(self), r)
                },
                LaunchEvent::DisplayRestored => {
                    &&& final(self).restore_count() == 1
                    &&& final(self).failure() == old(self).failure()
                    &&& finish_shape(*old(self), *final(self), r)
                },
                LaunchEvent::LogCopied(copy_failure) => {
                    &&& final(self).stage() == LaunchStage::Done
                    &&& r == LaunchAction::Finished
                    &&& match copy_failure {
                        Some(e) => {
                            if old(self).log_copy_policy_spec() == LogCopyPolicy::FailLaunch {
                                final(self).failure() matches Some(f) && f
                                    matches GameLauncherError::ProcessOutputLog(e2) && e2 == e
                            } else {
                                final(self).failure() is None
                            }
                        },
                        None => final(self).failure() is None,
                    }
                },
            },
    {
        match event {
            LaunchEvent::CompositorSpawned(pid) => {
                self.compositor = Some(pid);
                self.compositor_spawned = true;
                if self.fix_overlay {
                    self.stage = LaunchStage::Discovering;
                    LaunchAction::AwaitDiscovery
                } else {
                    self.stage = LaunchStage::RunningTarget;
                    LaunchAction::SpawnTarget(self.target_command.clone())
                }
            },
            LaunchEvent::CompositorSpawnFailed(msg) => {
                self.failure = Some(GameLauncherError::RunCommand(msg));
                self.stage = LaunchStage::Done;
                LaunchAction::Finished
            },
            LaunchEvent::DiscoveryFinished(outcome) => {
                match outcome {
                    DiscoveryOutcome::Found(n) => {
                        self.display_override = Some(n);
                        self.override_count = 1;
                        self.stage = LaunchStage::OverridingDisplay;
                        LaunchAction::OverrideDisplay(n)
                    },
                    DiscoveryOutcome::NotFound => {
                        self.stage = LaunchStage::RunningTarget;
                        LaunchAction::SpawnTarget(self.target_command.clone())
                    },
                }
            },
            LaunchEvent::DisplayOverrideApplied(prev) => {
                self.env_snapshot = Some(prev);
                self.stage = LaunchStage::RunningTarget;
                LaunchAction::SpawnTarget(self.target_command.clone())
            },
            LaunchEvent::TargetExited => {
                self.teardown()
            },
            LaunchEvent::TargetSpawnFailed(msg) => {
                self.failure = Some(GameLauncherError::RunCommand(msg));
                self.teardown()
            },
            LaunchEvent::CompositorSignaled(outcome) => {
                match outcome {
                    SignalOutcome::Delivered => {
                        let pid = match self.compositor {
                            Some(p) => p,
                            None => 0,  // unreachable under the invariant
                        };
                        self.stage = LaunchStage::ReapingCompositor;
                        LaunchAction::ReapCompositor(pid)
                    },
                    _ => {
                        self.compositor = None;
                        self.after_teardown()
                    },
                }
            },
            LaunchEvent::CompositorReaped(_) => {
                self.compositor = None;
                self.after_teardown()
            },
            LaunchEvent::DisplayRestored => {
                self.restore_count = 1;
                self.finish()
            },
            LaunchEvent::LogCopied(copy_failure) => {
                if let Some(e) = copy_failure {
                    if matches!(self.log_copy_policy, LogCopyPolicy::FailLaunch) {
                        self.failure = Some(GameLauncherError::ProcessOutputLog(e));
                    }
                }
                self.stage = LaunchStage::Done;
                LaunchAction::Finished
            },
        }
    }

    /// Begins teardown after the target's run, whatever came of it: signal
    /// the compositor if one is owned, else head straight for the end.
    fn teardown(&mut self) -> (r: LaunchAction)
        requires
            old(self).wf(),
            old(self).stage() == LaunchStage::RunningTarget,
        ensures
            final(self).wf(),
            final(self).target_command() == old(self).target_command(),
            final(self).fix_overlay_spec() == old(self).fix_overlay_spec(),
            final(self).persistent_log_spec() == old(self).persistent_log_spec(),
            final(self).log_copy_policy_spec() == old(self).log_copy_policy_spec(),
            final(self).compositor_spawned() == old(self).compositor_spawned(),
            final(self).compositor() == old(self).compositor(),
            final(self).env_snapshot() == old(self).env_snapshot(),
            final(self).failure() == old(self).failure(),
            teardown_shape(*old(self), *final(self), r),
    {
        match self.compositor {
            Some(pid) => {
                self.teardown_count = 1;
                self.stage = LaunchStage::SignalingCompositor;
                LaunchAction::SignalCompositor(pid)
            },
            None => self.after_teardown(),
        }
    }

    /// Whether the supervisor can take this event next.
    pub fn expects_event(&self, event: &LaunchEvent) -> (r: bool)
        ensures
            r == self.expects(*event),
    {
        match (self.stage, event) {
            (LaunchStage::StartingCompositor, LaunchEvent::CompositorSpawned(_)) => true,
            (LaunchStage::StartingCompositor, LaunchEvent::CompositorSpawnFailed(_)) => true,
            (LaunchStage::Discovering, LaunchEvent::DiscoveryFinished(_)) => true,
            (LaunchStage::OverridingDisplay, LaunchEvent::DisplayOverrideApplied(_)) => true,
            (LaunchStage::RunningTarget, LaunchEvent::TargetExited) => true,
            (LaunchStage::RunningTarget, LaunchEvent::TargetSpawnFailed(_)) => true,
            (LaunchStage::SignalingCompositor, LaunchEvent::CompositorSignaled(_)) => true,
            (LaunchStage::ReapingCompositor, LaunchEvent::CompositorReaped(_)) => true,
            (LaunchStage::RestoringDisplay, LaunchEvent::DisplayRestored) => true,
            (LaunchStage::CopyingLog, LaunchEvent::LogCopied(_)) => true,
            _ => false,
        }
    }

    /// Whether the launch is over.
    pub fn is_done(&self) -> (r: bool)
        ensures
            r == (self.stage() == LaunchStage::Done),
    {
        matches!(self.stage, LaunchStage::Done)
    }

    /// The launch's result, once it is over: the failure that arose, or
    /// success — a non-zero target exit status is not a failure.
    pub fn result(self) -> (r: Result<(), GameLauncherError>)
        requires
            self.stage() == LaunchStage::Done,
        ensures
            match self.failure() {
                Some(e) => r matches Err(e2) && e2 == e,
                None => r is Ok,
            },
    {
        match self.failure {
            Some(e) => Err(e),
            None => Ok(()),
        }
    }

    /// Whether the compositor sub-configuration asks for display discovery.
    pub closed spec fn fix_overlay_spec(self) -> bool {
        self.fix_overlay
    }
}

/// The shape of the transition out of the target's run: teardown is begun
/// by signaling an owned compositor, else the launch heads for its end.
pub open spec fn finish_shape(pre: GameLauncher, post: GameLauncher, r: LaunchAction) -> bool {
    if post.failure() is None && pre.persistent_log_spec() {
        &&& post.stage() == LaunchStage::CopyingLog
        &&& r == LaunchAction::CopyLog
    } else {
        &&& post.stage() == LaunchStage::Done
        &&& r == LaunchAction::Finished
    }
}

/// The shape of the step after teardown: the display variable is restored
/// if it was overridden, else the launch heads for its end.
pub open spec fn after_teardown_shape(pre: GameLauncher, post: GameLauncher, r: LaunchAction)
    -> bool {
    match pre.env_snapshot() {
        Some(prev) => {
            &&& post.stage() == LaunchStage::RestoringDisplay
            &&& r matches LaunchAction::RestoreDisplay(p) && p.deep_view() == prev.deep_view()
        },
        None => finish_shape(pre, post, r),
    }
}

/// The shape of the transition out of the target's run: an owned compositor
/// is signaled exactly now; without one, teardown is owed nothing and the
/// launch moves on.
pub open spec fn teardown_shape(pre: GameLauncher, post: GameLauncher, r: LaunchAction) -> bool {
    match pre.compositor() {
        Some(pid) => {
            &&& post.stage() == LaunchStage::SignalingCompositor
            &&& post.teardown_count() == 1
            &&& r == LaunchAction::SignalCompositor(pid)
        },
        None => after_teardown_shape(pre, post, r),
    }
}

impl GameLauncher {
    /// Whether a persistent copy of the captured log was requested.
    pub closed spec fn persistent_log_spec(self) -> bool {
        self.persistent_log
    }

    /// What a log-copy failure does to the launch's reported outcome.
    pub closed spec fn log_copy_policy_spec(self) -> LogCopyPolicy {
        self.log_copy_policy
    }
}

/// The law teardown obeys: when a launch is over, teardown was attempted
/// exactly once if a compositor process was ever created — even when the
/// target failed to spawn — and never otherwise.
pub proof fn lemma_teardown_exactly_once(s: GameLauncher)
    requires
        s.wf(),
        s.stage() == LaunchStage::Done,
    ensures
        s.teardown_count() == (if s.compositor_spawned() {
            1int
        } else {
            0int
        }),
        s.compositor() is None,
{
}

/// The law environment restoration obeys: when a launch is over, the
/// display variable was restored exactly once if it was overridden, and
/// never otherwise — whatever the target's exit came to.
pub proof fn lemma_display_restored_exactly_once(s: GameLauncher)
    requires
        s.wf(),
        s.stage() == LaunchStage::Done,
    ensures
        s.restore_count() == (if s.snapshot_taken() {
            1int
        } else {
            0int
        }),
{
}

/// The law the display override obeys: the display variable is overridden
/// at most once per launch, and only with a discovered display.
pub proof fn lemma_display_overridden_at_most_once(s: GameLauncher)
    requires
        s.wf(),
    ensures
        s.override_count() == (if s.display_override() is Some {
            1int
        } else {
            0int
        }),
        s.snapshot_taken() ==> s.display_override() is Some,
{
}

/// The law a compositor-less launch obeys: without a spawned compositor
/// the display variable is never overridden, no snapshot is taken, and
/// teardown is never attempted.
pub proof fn lemma_no_compositor_no_display_mutation(s: GameLauncher)
    requires
        s.wf(),
        !s.compositor_spawned(),
    ensures
        s.display_override() is None,
        !s.snapshot_taken(),
        s.override_count() == 0,
        s.teardown_count() == 0,
        s.restore_count() == 0,
{
}

} // verus!
