//! The order of the startup, and which failures may end it.
//!
//! The dependency is looked after first, on the startup thread, and the
//! startup waits for that step. Then the backend launch is handed to a thread
//! of its own and not waited for. Then the tray is set up. Only the tray can
//! fail the startup: whatever became of the dependency and of the backend is
//! written to the log and the startup goes on.

use vstd::prelude::*;
use crate::installer::{
    installer_step_spec, InstallOutcome, InstallerEvent, InstallerRun, InstallerState,
};
use crate::setup::SetupError;

verus! {

/// Where the startup stands.
#[derive(Clone, Copy, Debug, PartialEq, Eq, Structural)]
pub enum StartupStage {
    /// The dependency is probed and, if missing, installed.
    EnsureDependency,
    /// The backend launch is dispatched.
    LaunchBackend,
    /// The tray is set up.
    BuildTray,
    /// The startup is over and the application runs.
    Running,
    /// The startup was given up.
    Aborted { error: SetupError },
}

/// What a stage reports when it is over.
#[derive(Clone, Copy, Debug, PartialEq, Eq, Structural)]
pub enum StageReport {
    /// The dependency step is over; the outcome of an installation, if one
    /// was run and ended, is for the log.
    DependencyStepOver { outcome: Option<InstallOutcome> },
    /// The backend launch was handed to its thread; what comes of it is not
    /// waited for.
    BackendLaunchDispatched,
    /// The tray stands.
    TrayReady,
    /// The tray could not be set up.
    TrayFailed { error: SetupError },
}

/// What the surrounding program does in a stage.
#[derive(Clone, Copy, Debug, PartialEq, Eq, Structural)]
pub enum StageTask {
    /// Run the dependency step to its end on this thread.
    EnsureDependency,
    /// Start the backend launch on a detached thread and go on at once.
    LaunchBackend,
    /// Set the tray up on this thread.
    BuildTray,
    /// Hand control to the application's event loop.
    Run,
    /// Fail the startup with this error.
    Fail { error: SetupError },
}

/// The stage that follows when a stage has reported. A report that does not
/// belong to the stage changes nothing.
pub open spec fn next_stage_spec(stage: StartupStage, report: StageReport) -> StartupStage {
    match (stage, report) {
        (StartupStage::EnsureDependency, StageReport::DependencyStepOver { .. }) => {
            StartupStage::LaunchBackend
        },
        (StartupStage::LaunchBackend, StageReport::BackendLaunchDispatched) => {
            StartupStage::BuildTray
        },
        (StartupStage::BuildTray, StageReport::TrayReady) => StartupStage::Running,
        (StartupStage::BuildTray, StageReport::TrayFailed { error }) => StartupStage::Aborted {
            error,
        },
        _ => stage,
    }
}

/// The task of a stage.
pub open spec fn stage_task_spec(stage: StartupStage) -> StageTask {
    match stage {
        StartupStage::EnsureDependency => StageTask::EnsureDependency,
        StartupStage::LaunchBackend => StageTask::LaunchBackend,
        StartupStage::BuildTray => StageTask::BuildTray,
        StartupStage::Running => StageTask::Run,
        StartupStage::Aborted { error } => StageTask::Fail { error },
    }
}

/// The stage after a whole sequence of reports.
pub open spec fn startup_run_spec(stage: StartupStage, reports: Seq<StageReport>) -> StartupStage
    decreases reports.len(),
{
    if reports.len() == 0 {
        stage
    } else {
        startup_run_spec(next_stage_spec(stage, reports[0]), reports.skip(1))
    }
}

/// The stage in which every startup begins.
pub fn first_stage() -> (stage: StartupStage)
    ensures
        stage == StartupStage::EnsureDependency,
{
    StartupStage::EnsureDependency
}

/// Moves the startup on when a stage has reported.
pub fn next_stage(stage: StartupStage, report: StageReport) -> (next: StartupStage)
    ensures
        next == next_stage_spec(stage, report),
{
    match (stage, report) {
        (StartupStage::EnsureDependency, StageReport::DependencyStepOver { .. }) => {
            StartupStage::LaunchBackend
        },
        (StartupStage::LaunchBackend, StageReport::BackendLaunchDispatched) => {
            StartupStage::BuildTray
        },
        (StartupStage::BuildTray, StageReport::TrayReady) => StartupStage::Running,
        (StartupStage::BuildTray, StageReport::TrayFailed { error }) => StartupStage::Aborted {
            error,
        },
        _ => stage,
    }
}

/// What to do in a stage.
pub fn stage_task(stage: StartupStage) -> (task: StageTask)
    ensures
        task == stage_task_spec(stage),
{
    match stage {
        StartupStage::EnsureDependency => StageTask::EnsureDependency,
        StartupStage::LaunchBackend => StageTask::LaunchBackend,
        StartupStage::BuildTray => StageTask::BuildTray,
        StartupStage::Running => StageTask::Run,
        StartupStage::Aborted { error } => StageTask::Fail { error },
    }
}

/// Something that went wrong.
#[derive(Clone, Copy, Debug, PartialEq, Eq, Structural)]
pub enum Failure {
    /// The probe could not start the dependency.
    DependencyMissing,
    /// The installer could not be started.
    InstallerNotStarted,
    /// The installer ended with a failure status.
    InstallerFailed,
    /// The backend's location could not be worked out.
    BackendUnresolved,
    /// The backend process could not be spawned.
    BackendNotStarted,
    /// The tray could not be set up.
    Setup { error: SetupError },
    /// The main window was not there when it was to be shown.
    WindowNotFound,
}

/// What is done about a failure.
#[derive(Clone, Copy, Debug, PartialEq, Eq, Structural)]
pub enum FailurePolicy {
    /// Write a line to the log and go on.
    LogAndContinue,
    /// Give the startup up; this is the one kind the user gets to see.
    AbortStartup,
    /// Do nothing and say nothing.
    Ignore,
}

/// The policy for each failure.
pub open spec fn failure_policy_spec(failure: Failure) -> FailurePolicy {
    match failure {
        Failure::Setup { .. } => FailurePolicy::AbortStartup,
        Failure::WindowNotFound => FailurePolicy::Ignore,
        _ => FailurePolicy::LogAndContinue,
    }
}

/// The policy for a failure.
pub fn failure_policy(failure: Failure) -> (policy: FailurePolicy)
    ensures
        policy == failure_policy_spec(failure),
{
    match failure {
        Failure::Setup { .. } => FailurePolicy::AbortStartup,
        Failure::WindowNotFound => FailurePolicy::Ignore,
        _ => FailurePolicy::LogAndContinue,
    }
}

/// Whatever the installer did, whether it could not be started, ended with a
/// failure status, succeeded, or was lost while waiting, the dependency step
/// is over afterwards and the stage that follows it is the backend launch.
pub proof fn law_installer_never_blocks_launch(run: InstallerRun)
    ensures
        installer_step_spec(InstallerState::Installing, InstallerEvent::InstallerRan(run)).state
            == InstallerState::Done,
        next_stage_spec(
            StartupStage::EnsureDependency,
            StageReport::DependencyStepOver {
                outcome: installer_step_spec(
                    InstallerState::Installing,
                    InstallerEvent::InstallerRan(run),
                ).outcome,
            },
        ) == StartupStage::LaunchBackend,
        stage_task_spec(StartupStage::LaunchBackend) == StageTask::LaunchBackend,
{
}

/// No outcome of the dependency step keeps the startup from the backend
/// launch, and nothing but a tray that cannot be set up aborts the startup.
pub proof fn law_only_tray_failure_aborts(stage: StartupStage, report: StageReport)
    ensures
        forall|outcome: Option<InstallOutcome>|
            #[trigger] next_stage_spec(
                StartupStage::EnsureDependency,
                StageReport::DependencyStepOver { outcome },
            ) == StartupStage::LaunchBackend,
        next_stage_spec(stage, report) is Aborted <==> stage is Aborted || (stage
            == StartupStage::BuildTray && report is TrayFailed),
        forall|failure: Failure|
            #[trigger] failure_policy_spec(failure) == FailurePolicy::AbortStartup
                <==> failure is Setup,
{
}

/// A startup whose tray can be built reaches the running application by way
/// of all three stages, whatever the dependency step reported.
pub proof fn law_startup_order(outcome: Option<InstallOutcome>)
    ensures
        startup_run_spec(
            StartupStage::EnsureDependency,
            seq![
                StageReport::DependencyStepOver { outcome },
                StageReport::BackendLaunchDispatched,
                StageReport::TrayReady,
            ],
        ) == StartupStage::Running,
{
    let reports = seq![
        StageReport::DependencyStepOver { outcome },
        StageReport::BackendLaunchDispatched,
        StageReport::TrayReady,
    ];
    let r1 = reports.skip(1);
    let r2 = r1.skip(1);
    assert(r2.skip(1).len() == 0);
    reveal_with_fuel(startup_run_spec, 4);
}

} // verus!
