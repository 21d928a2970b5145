use tray_supervisor::diagnostics::Diagnostic;
use tray_supervisor::installer::{
    command_for, dependency_status, install_ollama_if_missing, install_outcome, install_report,
    installer_command, probe_command, CommandLine, DependencyStatus, InstallOutcome,
    InstallerAction, InstallerEvent, InstallerRun, InstallerState, InstallerStep, ProbeResult,
};

fn all_runs() -> Vec<InstallerRun> {
    vec![
        InstallerRun::NotStarted { reason: "not found".to_string() },
        InstallerRun::Exited { success: true },
        InstallerRun::Exited { success: false },
        InstallerRun::WaitFailed,
    ]
}

#[test]
fn probe_command_is_the_version_query() {
    assert_eq!(
        probe_command(),
        CommandLine { program: "ollama".to_string(), args: vec!["--version".to_string()] }
    );
}

#[test]
fn installer_command_is_the_silent_install() {
    assert_eq!(
        installer_command(),
        CommandLine {
            program: "powershell".to_string(),
            args: vec![
                "-Command".to_string(),
                "Start-Process ollama-windows.exe -ArgumentList '/S' -Wait".to_string(),
            ],
        }
    );
}

#[test]
fn command_for_each_action() {
    assert_eq!(command_for(InstallerAction::RunProbe), Some(probe_command()));
    assert_eq!(command_for(InstallerAction::RunInstaller), Some(installer_command()));
    assert_eq!(command_for(InstallerAction::Nothing), None);
}

#[test]
fn probe_that_ran_means_present_whatever_the_exit_code() {
    for code in [Some(0), Some(1), Some(-1), Some(127), Some(i32::MIN), Some(i32::MAX), None] {
        assert_eq!(
            dependency_status(ProbeResult::Ran { exit_code: code }),
            DependencyStatus::Present
        );
    }
}

#[test]
fn probe_that_did_not_start_means_absent() {
    assert_eq!(dependency_status(ProbeResult::NotStarted), DependencyStatus::Absent);
}

#[test]
fn install_outcome_of_each_run() {
    assert_eq!(
        install_outcome(&InstallerRun::NotStarted { reason: "x".to_string() }),
        Some(InstallOutcome::FailedToStart)
    );
    assert_eq!(
        install_outcome(&InstallerRun::Exited { success: true }),
        Some(InstallOutcome::Succeeded)
    );
    assert_eq!(
        install_outcome(&InstallerRun::Exited { success: false }),
        Some(InstallOutcome::CompletedWithNonzeroStatus)
    );
    assert_eq!(install_outcome(&InstallerRun::WaitFailed), None);
}

#[test]
fn install_report_of_each_run() {
    assert_eq!(
        install_report(&InstallerRun::NotStarted { reason: "x".to_string() }),
        Some(Diagnostic::InstallerNotStarted { reason: "x".to_string() })
    );
    assert_eq!(
        install_report(&InstallerRun::Exited { success: true }),
        Some(Diagnostic::InstallSucceeded)
    );
    assert_eq!(
        install_report(&InstallerRun::Exited { success: false }),
        Some(Diagnostic::InstallMayHaveFailed)
    );
    assert_eq!(install_report(&InstallerRun::WaitFailed), None);
}

#[test]
fn begin_asks_for_the_probe() {
    assert_eq!(
        install_ollama_if_missing(InstallerState::Idle, &InstallerEvent::Begin),
        InstallerStep {
            state: InstallerState::Probing,
            action: InstallerAction::RunProbe,
            report: None,
            outcome: None,
        }
    );
}

#[test]
fn present_dependency_ends_the_step_without_installing() {
    let event = InstallerEvent::Probed(ProbeResult::Ran { exit_code: Some(3) });
    assert_eq!(
        install_ollama_if_missing(InstallerState::Probing, &event),
        InstallerStep {
            state: InstallerState::Done,
            action: InstallerAction::Nothing,
            report: Some(Diagnostic::DependencyPresent),
            outcome: None,
        }
    );
}

#[test]
fn missing_dependency_asks_for_the_installer() {
    let event = InstallerEvent::Probed(ProbeResult::NotStarted);
    assert_eq!(
        install_ollama_if_missing(InstallerState::Probing, &event),
        InstallerStep {
            state: InstallerState::Installing,
            action: InstallerAction::RunInstaller,
            report: Some(Diagnostic::DependencyMissing),
            outcome: None,
        }
    );
}

#[test]
fn installer_success_is_reported() {
    let event = InstallerEvent::InstallerRan(InstallerRun::Exited { success: true });
    assert_eq!(
        install_ollama_if_missing(InstallerState::Installing, &event),
        InstallerStep {
            state: InstallerState::Done,
            action: InstallerAction::Nothing,
            report: Some(Diagnostic::InstallSucceeded),
            outcome: Some(InstallOutcome::Succeeded),
        }
    );
}

#[test]
fn installer_nonzero_status_is_reported() {
    let event = InstallerEvent::InstallerRan(InstallerRun::Exited { success: false });
    assert_eq!(
        install_ollama_if_missing(InstallerState::Installing, &event),
        InstallerStep {
            state: InstallerState::Done,
            action: InstallerAction::Nothing,
            report: Some(Diagnostic::InstallMayHaveFailed),
            outcome: Some(InstallOutcome::CompletedWithNonzeroStatus),
        }
    );
}

#[test]
fn installer_that_did_not_start_is_reported() {
    let event = InstallerEvent::InstallerRan(InstallerRun::NotStarted {
        reason: "program not found".to_string(),
    });
    assert_eq!(
        install_ollama_if_missing(InstallerState::Installing, &event),
        InstallerStep {
            state: InstallerState::Done,
            action: InstallerAction::Nothing,
            report: Some(Diagnostic::InstallerNotStarted {
                reason: "program not found".to_string()
            }),
            outcome: Some(InstallOutcome::FailedToStart),
        }
    );
}

#[test]
fn failed_wait_ends_the_step_silently() {
    let event = InstallerEvent::InstallerRan(InstallerRun::WaitFailed);
    assert_eq!(
        install_ollama_if_missing(InstallerState::Installing, &event),
        InstallerStep {
            state: InstallerState::Done,
            action: InstallerAction::Nothing,
            report: None,
            outcome: None,
        }
    );
}

#[test]
fn every_installer_run_ends_the_step() {
    for run in all_runs() {
        let step =
            install_ollama_if_missing(InstallerState::Installing, &InstallerEvent::InstallerRan(run));
        assert_eq!(step.state, InstallerState::Done);
        assert_eq!(step.action, InstallerAction::Nothing);
    }
}

#[test]
fn events_out_of_turn_change_nothing() {
    let states = [
        InstallerState::Idle,
        InstallerState::Probing,
        InstallerState::Installing,
        InstallerState::Done,
    ];
    let events = vec![
        InstallerEvent::Begin,
        InstallerEvent::Probed(ProbeResult::NotStarted),
        InstallerEvent::Probed(ProbeResult::Ran { exit_code: Some(0) }),
        InstallerEvent::InstallerRan(InstallerRun::Exited { success: true }),
    ];
    for state in states {
        for event in &events {
            let in_turn = matches!(
                (state, event),
                (InstallerState::Idle, InstallerEvent::Begin)
                    | (InstallerState::Probing, InstallerEvent::Probed(_))
                    | (InstallerState::Installing, InstallerEvent::InstallerRan(_))
            );
            if !in_turn {
                assert_eq!(
                    install_ollama_if_missing(state, event),
                    InstallerStep {
                        state,
                        action: InstallerAction::Nothing,
                        report: None,
                        outcome: None,
                    }
                );
            }
        }
    }
}

#[test]
fn the_installer_is_asked_for_only_after_a_probe_that_did_not_start() {
    let step = install_ollama_if_missing(
        InstallerState::Probing,
        &InstallerEvent::Probed(ProbeResult::Ran { exit_code: None }),
    );
    assert_ne!(step.action, InstallerAction::RunInstaller);
    let step = install_ollama_if_missing(
        InstallerState::Idle,
        &InstallerEvent::Probed(ProbeResult::NotStarted),
    );
    assert_ne!(step.action, InstallerAction::RunInstaller);
}
