use tray_supervisor::diagnostics::Diagnostic;

#[test]
fn render_dependency_lines() {
    assert_eq!(
        Diagnostic::DependencyPresent.render(),
        "[PrivCode] Ollama is already installed"
    );
    assert_eq!(
        Diagnostic::DependencyMissing.render(),
        "[PrivCode] Ollama not found, installing..."
    );
}

#[test]
fn render_install_lines() {
    assert_eq!(
        Diagnostic::InstallSucceeded.render(),
        "[PrivCode] Ollama installed successfully"
    );
    assert_eq!(
        Diagnostic::InstallMayHaveFailed.render(),
        "[PrivCode] Ollama installation may have failed"
    );
    assert_eq!(
        Diagnostic::InstallerNotStarted { reason: "program not found".to_string() }.render(),
        "[PrivCode] Failed to start Ollama installer: program not found"
    );
}

#[test]
fn render_backend_lines() {
    assert_eq!(Diagnostic::BackendStarted.render(), "[PrivCode] FastAPI backend started");
    assert_eq!(
        Diagnostic::BackendNotStarted { reason: "No such file or directory (os error 2)".to_string() }
            .render(),
        "[PrivCode] Failed to start backend: No such file or directory (os error 2)"
    );
    assert_eq!(
        Diagnostic::RepoRootUnresolved.render(),
        "[PrivCode] Could not determine repo root path"
    );
    assert_eq!(
        Diagnostic::ExecutableUnknown.render(),
        "[PrivCode] Could not determine executable path"
    );
}

#[test]
fn render_with_empty_reason_keeps_the_prefix() {
    assert_eq!(
        Diagnostic::BackendNotStarted { reason: String::new() }.render(),
        "[PrivCode] Failed to start backend: "
    );
}

#[test]
fn every_line_carries_the_application_tag() {
    let all = vec![
        Diagnostic::DependencyPresent,
        Diagnostic::DependencyMissing,
        Diagnostic::InstallSucceeded,
        Diagnostic::InstallMayHaveFailed,
        Diagnostic::InstallerNotStarted { reason: "x".to_string() },
        Diagnostic::BackendStarted,
        Diagnostic::BackendNotStarted { reason: "y".to_string() },
        Diagnostic::RepoRootUnresolved,
        Diagnostic::ExecutableUnknown,
    ];
    for d in all {
        assert!(d.render().starts_with("[PrivCode] "));
    }
}
