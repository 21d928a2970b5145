//! Making sure that the model runtime is installed.
//!
//! The dependency is probed by running it with a version query. If it cannot
//! even be started, a silent installer is run and waited for. The program
//! around this library runs the two commands; this module says which command
//! comes next, what each result means and what is logged. Nothing here ever
//! stops the startup.

use vstd::prelude::*;
use crate::diagnostics::Diagnostic;

verus! {

/// A program and its arguments.
#[derive(Clone, Debug, PartialEq, Eq)]
pub struct CommandLine {
    pub program: String,
    pub args: Vec<String>,
}

/// The mathematical value of a [`CommandLine`].
pub struct CommandLineView {
    pub program: Seq<char>,
    pub args: Seq<Seq<char>>,
}

impl View for CommandLine {
    type V = CommandLineView;

    open spec fn view(&self) -> CommandLineView {
        CommandLineView {
            program: self.program@,
            args: Seq::new(self.args@.len(), |i: int| self.args@[i]@),
        }
    }
}

/// The probe: the dependency itself, asked for its version, found through `PATH`.
pub open spec fn probe_command_spec() -> CommandLineView {
    CommandLineView { program: "ollama"@, args: seq!["--version"@] }
}

/// The installer: a shell that starts the silent installer and waits for it.
pub open spec fn installer_command_spec() -> CommandLineView {
    CommandLineView {
        program: "powershell"@,
        args: seq![
            "-Command"@,
            "Start-Process ollama-windows.exe -ArgumentList '/S' -Wait"@,
        ],
    }
}

/// The command that probes for the dependency.
pub fn probe_command() -> (command: CommandLine)
    ensures
        command@ == probe_command_spec(),
{
    let mut args: Vec<String> = Vec::new();
    args.push(String::from_str("--version"));
    let command = CommandLine { program: String::from_str("ollama"), args };
    assert(command@.args =~= probe_command_spec().args);
    command
}

/// The command that installs the dependency.
pub fn installer_command() -> (command: CommandLine)
    ensures
        command@ == installer_command_spec(),
{
    let mut args: Vec<String> = Vec::new();
    args.push(String::from_str("-Command"));
    args.push(String::from_str("Start-Process ollama-windows.exe -ArgumentList '/S' -Wait"));
    let command = CommandLine { program: String::from_str("powershell"), args };
    assert(command@.args =~= installer_command_spec().args);
    command
}

/// What running the probe gave.
#[derive(Clone, Copy, Debug, PartialEq, Eq)]
pub enum ProbeResult {
    /// The dependency started and returned; a signal leaves no exit code.
    Ran { exit_code: Option<i32> },
    /// The dependency could not be started.
    NotStarted,
}

/// Whether the dependency is usable.
#[derive(Clone, Copy, Debug, PartialEq, Eq, Structural)]
pub enum DependencyStatus {
    Present,
    Absent,
}

/// What running the installer gave.
#[derive(Clone, Debug, PartialEq, Eq)]
pub enum InstallerRun {
    /// The installer could not be started; the text is the system's reason.
    NotStarted { reason: String },
    /// The installer ran to its end; `success` says whether its status was zero.
    Exited { success: bool },
    /// The installer started, but waiting for it failed.
    WaitFailed,
}

/// How an installation ended, for the log only.
#[derive(Clone, Copy, Debug, PartialEq, Eq, Structural)]
pub enum InstallOutcome {
    Succeeded,
    FailedToStart,
    CompletedWithNonzeroStatus,
}

/// The dependency is present exactly when the probe started, whatever it
/// returned.
pub open spec fn dependency_status_spec(probe: ProbeResult) -> DependencyStatus {
    if probe is Ran {
        DependencyStatus::Present
    } else {
        DependencyStatus::Absent
    }
}

/// The outcome of an installer run; none when the wait itself failed, which
/// says nothing of the installation.
pub open spec fn install_outcome_spec(run: InstallerRun) -> Option<InstallOutcome> {
    match run {
        InstallerRun::NotStarted { .. } => Some(InstallOutcome::FailedToStart),
        InstallerRun::Exited { success } => if success {
            Some(InstallOutcome::Succeeded)
        } else {
            Some(InstallOutcome::CompletedWithNonzeroStatus)
        },
        InstallerRun::WaitFailed => None,
    }
}

/// The line that an installer run leaves in the log, if any.
pub open spec fn install_report_spec(run: InstallerRun) -> Option<Diagnostic> {
    match run {
        InstallerRun::NotStarted { reason } => Some(Diagnostic::InstallerNotStarted { reason }),
        InstallerRun::Exited { success } => if success {
            Some(Diagnostic::InstallSucceeded)
        } else {
            Some(Diagnostic::InstallMayHaveFailed)
        },
        InstallerRun::WaitFailed => None,
    }
}

/// Reads a probe result.
pub fn dependency_status(probe: ProbeResult) -> (status: DependencyStatus)
    ensures
        status == dependency_status_spec(probe),
{
    match probe {
        ProbeResult::Ran { .. } => DependencyStatus::Present,
        ProbeResult::NotStarted => DependencyStatus::Absent,
    }
}

/// Classifies an installer run.
pub fn install_outcome(run: &InstallerRun) -> (outcome: Option<InstallOutcome>)
    ensures
        outcome == install_outcome_spec(*run),
{
    match run {
        InstallerRun::NotStarted { .. } => Some(InstallOutcome::FailedToStart),
        InstallerRun::Exited { success } => {
            if *success {
                Some(InstallOutcome::Succeeded)
            } else {
                Some(InstallOutcome::CompletedWithNonzeroStatus)
            }
        },
        InstallerRun::WaitFailed => None,
    }
}

/// The log line for an installer run.
pub fn install_report(run: &InstallerRun) -> (report: Option<Diagnostic>)
    ensures
        report == install_report_spec(*run),
{
    match run {
        InstallerRun::NotStarted { reason } => {
            Some(Diagnostic::InstallerNotStarted { reason: reason.clone() })
        },
        InstallerRun::Exited { success } => {
            if *success {
                Some(Diagnostic::InstallSucceeded)
            } else {
                Some(Diagnostic::InstallMayHaveFailed)
            }
        },
        InstallerRun::WaitFailed => None,
    }
}

/// Where the installer stands.
#[derive(Clone, Copy, Debug, PartialEq, Eq, Structural)]
pub enum InstallerState {
    /// Nothing has been done yet.
    Idle,
    /// The probe is running.
    Probing,
    /// The installer is running.
    Installing,
    /// The step is over; the startup goes on.
    Done,
}

/// What the surrounding program reports back.
#[derive(Clone, Debug, PartialEq, Eq)]
pub enum InstallerEvent {
    /// The startup reached this step.
    Begin,
    /// The probe command has been run.
    Probed(ProbeResult),
    /// The installer command has been run and waited for.
    InstallerRan(InstallerRun),
}

/// What the surrounding program does next.
#[derive(Clone, Copy, Debug, PartialEq, Eq, Structural)]
pub enum InstallerAction {
    /// Run [`probe_command`] and report `Probed`.
    RunProbe,
    /// Run [`installer_command`], wait for it, and report `InstallerRan`.
    RunInstaller,
    /// Nothing: either the step is over or the event came out of turn.
    Nothing,
}

/// One decision of the installer.
#[derive(Clone, Debug, PartialEq, Eq)]
pub struct InstallerStep {
    /// The state after the event.
    pub state: InstallerState,
    /// What to do next.
    pub action: InstallerAction,
    /// The line to log, if any.
    pub report: Option<Diagnostic>,
    /// How the installation ended, once the installer has run.
    pub outcome: Option<InstallOutcome>,
}

/// The installer's transitions. An event that does not belong to the current
/// state changes nothing.
pub open spec fn installer_step_spec(state: InstallerState, event: InstallerEvent) -> InstallerStep {
    match (state, event) {
        (InstallerState::Idle, InstallerEvent::Begin) => InstallerStep {
            state: InstallerState::Probing,
            action: InstallerAction::RunProbe,
            report: None,
            outcome: None,
        },
        (InstallerState::Probing, InstallerEvent::Probed(probe)) => {
            if dependency_status_spec(probe) == DependencyStatus::Present {
                InstallerStep {
                    state: InstallerState::Done,
                    action: InstallerAction::Nothing,
                    report: Some(Diagnostic::DependencyPresent),
                    outcome: None,
                }
            } else {
                InstallerStep {
                    state: InstallerState::Installing,
                    action: InstallerAction::RunInstaller,
                    report: Some(Diagnostic::DependencyMissing),
                    outcome: None,
                }
            }
        },
        (InstallerState::Installing, InstallerEvent::InstallerRan(run)) => InstallerStep {
            state: InstallerState::Done,
            action: InstallerAction::Nothing,
            report: install_report_spec(run),
            outcome: install_outcome_spec(run),
        },
        _ => InstallerStep {
            state,
            action: InstallerAction::Nothing,
            report: None,
            outcome: None,
        },
    }
}

/// Takes the installer one event further: probe first, install only if the
/// probe could not start the dependency, and be done after that whatever the
/// installer did.
pub fn install_ollama_if_missing(state: InstallerState, event: &InstallerEvent) -> (step:
    InstallerStep)
    ensures
        step == installer_step_spec(state, *event),
{
    match (state, event) {
        (InstallerState::Idle, InstallerEvent::Begin) => InstallerStep {
            state: InstallerState::Probing,
            action: InstallerAction::RunProbe,
            report: None,
            outcome: None,
        },
        (InstallerState::Probing, InstallerEvent::Probed(probe)) => {
            match dependency_status(*probe) {
                DependencyStatus::Present => InstallerStep {
                    state: InstallerState::Done,
                    action: InstallerAction::Nothing,
                    report: Some(Diagnostic::DependencyPresent),
                    outcome: None,
                },
                DependencyStatus::Absent => InstallerStep {
                    state: InstallerState::Installing,
                    action: InstallerAction::RunInstaller,
                    report: Some(Diagnostic::DependencyMissing),
                    outcome: None,
                },
            }
        },
        (InstallerState::Installing, InstallerEvent::InstallerRan(run)) => InstallerStep {
            state: InstallerState::Done,
            action: InstallerAction::Nothing,
            report: install_report(run),
            outcome: install_outcome(run),
        },
        _ => InstallerStep {
            state,
            action: InstallerAction::Nothing,
            report: None,
            outcome: None,
        },
    }
}

/// The command that an action asks for.
pub fn command_for(action: InstallerAction) -> (command: Option<CommandLine>)
    ensures
        action == InstallerAction::RunProbe ==> command is Some && command.unwrap()@
            == probe_command_spec(),
        action == InstallerAction::RunInstaller ==> command is Some && command.unwrap()@
            == installer_command_spec(),
        action == InstallerAction::Nothing ==> command is None,
{
    match action {
        InstallerAction::RunProbe => Some(probe_command()),
        InstallerAction::RunInstaller => Some(installer_command()),
        InstallerAction::Nothing => None,
    }
}

/// A dependency that starts counts as present whatever it exits with: no two
/// exit codes, and no missing exit code, tell two probes apart.
pub proof fn law_probe_ignores_exit_code(first: Option<i32>, second: Option<i32>)
    ensures
        dependency_status_spec(ProbeResult::Ran { exit_code: first })
            == DependencyStatus::Present,
        dependency_status_spec(ProbeResult::Ran { exit_code: first }) == dependency_status_spec(
            ProbeResult::Ran { exit_code: second },
        ),
        installer_step_spec(InstallerState::Probing, InstallerEvent::Probed(ProbeResult::Ran { exit_code: first }))
            == installer_step_spec(
            InstallerState::Probing,
            InstallerEvent::Probed(ProbeResult::Ran { exit_code: second }),
        ),
{
}

/// The installer runs only after a probe that could not start, and whatever
/// the installer reports, the step is over afterwards with nothing left to do.
pub proof fn law_installer_always_finishes(run: InstallerRun)
    ensures
        installer_step_spec(InstallerState::Installing, InstallerEvent::InstallerRan(run)).state
            == InstallerState::Done,
        installer_step_spec(InstallerState::Installing, InstallerEvent::InstallerRan(run)).action
            == InstallerAction::Nothing,
        forall|state: InstallerState, event: InstallerEvent|
            #[trigger] installer_step_spec(state, event).action == InstallerAction::RunInstaller
                <==> state == InstallerState::Probing && event == InstallerEvent::Probed(
                ProbeResult::NotStarted,
            ),
{
}

} // verus!
