//! The diagnostic lines that the supervisor reports. None of them stops the
//! startup: they are written to the log and the work goes on.

use vstd::prelude::*;

verus! {

/// Something worth a line in the log.
#[derive(Clone, Debug, PartialEq, Eq)]
pub enum Diagnostic {
    /// The probe found the dependency.
    DependencyPresent,
    /// The probe could not start the dependency; the installer runs next.
    DependencyMissing,
    /// The installer ran and reported success.
    InstallSucceeded,
    /// The installer ran and reported a failure status.
    InstallMayHaveFailed,
    /// The installer could not be started; the text is the system's reason.
    InstallerNotStarted { reason: String },
    /// The backend process was spawned.
    BackendStarted,
    /// The backend process could not be spawned; the text is the system's reason.
    BackendNotStarted { reason: String },
    /// The repository root lies above the top of the executable's location.
    RepoRootUnresolved,
    /// The location of the running executable is not known.
    ExecutableUnknown,
}

impl Diagnostic {
    /// The text of the log line, application tag included.
    pub open spec fn text(self) -> Seq<char> {
        match self {
            Diagnostic::DependencyPresent => "[PrivCode] Ollama is already installed"@,
            Diagnostic::DependencyMissing => "[PrivCode] Ollama not found, installing..."@,
            Diagnostic::InstallSucceeded => "[PrivCode] Ollama installed successfully"@,
            Diagnostic::InstallMayHaveFailed => "[PrivCode] Ollama installation may have failed"@,
            Diagnostic::InstallerNotStarted { reason } => {
                "[PrivCode] Failed to start Ollama installer: "@ + reason@
            },
            Diagnostic::BackendStarted => "[PrivCode] FastAPI backend started"@,
            Diagnostic::BackendNotStarted { reason } => {
                "[PrivCode] Failed to start backend: "@ + reason@
            },
            Diagnostic::RepoRootUnresolved => "[PrivCode] Could not determine repo root path"@,
            Diagnostic::ExecutableUnknown => "[PrivCode] Could not determine executable path"@,
        }
    }

    /// Writes the log line out.
    pub fn render(&self) -> (line: String)
        ensures
            line@ == self.text(),
    {
        match self {
            Diagnostic::DependencyPresent => {
                String::from_str("[PrivCode] Ollama is already installed")
            },
            Diagnostic::DependencyMissing => {
                String::from_str("[PrivCode] Ollama not found, installing...")
            },
            Diagnostic::InstallSucceeded => {
                String::from_str("[PrivCode] Ollama installed successfully")
            },
            Diagnostic::InstallMayHaveFailed => {
                String::from_str("[PrivCode] Ollama installation may have failed")
            },
            Diagnostic::InstallerNotStarted { reason } => {
                String::from_str("[PrivCode] Failed to start Ollama installer: ").concat(
                    reason.as_str(),
                )
            },
            Diagnostic::BackendStarted => String::from_str("[PrivCode] FastAPI backend started"),
            Diagnostic::BackendNotStarted { reason } => {
                String::from_str("[PrivCode] Failed to start backend: ").concat(reason.as_str())
            },
            Diagnostic::RepoRootUnresolved => {
                String::from_str("[PrivCode] Could not determine repo root path")
            },
            Diagnostic::ExecutableUnknown => {
                String::from_str("[PrivCode] Could not determine executable path")
            },
        }
    }
}

} // verus!
