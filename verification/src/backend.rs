//! Finding and launching the backend process.
//!
//! The backend lives at a fixed place relative to the running executable: the
//! repository root is four directories above the directory that holds the
//! executable, the interpreter is `venv/Scripts/python.exe` below that root,
//! and it is started in the root with the script `backend/app.py`. The
//! distance is a contract on the layout on disk, not a search.

use vstd::prelude::*;
use crate::diagnostics::Diagnostic;
use crate::location::{lemma_ancestor_composes, lemma_ancestor_drops_names, view_of, Location, LocationView};

verus! {

/// How many directories the repository root lies above the executable's own.
pub const ROOT_ASCENT: usize = 4;

/// The repository root for an executable: the fourth ancestor of the directory
/// that contains it.
pub open spec fn repo_root_spec(exe: LocationView) -> Option<LocationView> {
    match exe.parent() {
        Some(dir) => dir.ancestor(ROOT_ASCENT as nat),
        None => None,
    }
}

/// The interpreter below a repository root.
pub open spec fn interpreter_spec(root: LocationView) -> LocationView {
    root.join("venv"@).join("Scripts"@).join("python.exe"@)
}

/// The arguments that the interpreter is started with.
pub open spec fn backend_args_spec() -> Seq<Seq<char>> {
    seq!["backend/app.py"@]
}

/// Why the backend cannot be launched.
#[derive(Clone, Copy, Debug, PartialEq, Eq, Structural)]
pub enum LaunchError {
    /// The location of the running executable is not known.
    ExecutableUnknown,
    /// The executable lies too close to the top of the filesystem for the
    /// repository root to exist.
    RepoRootUnresolved,
}

/// Everything needed to spawn the backend.
#[derive(Clone, Debug, PartialEq, Eq)]
pub struct LaunchPlan {
    /// The interpreter to run.
    pub program: Location,
    /// Its arguments.
    pub args: Vec<String>,
    /// The directory to run it in.
    pub working_dir: Location,
}

/// The mathematical value of a [`LaunchPlan`].
pub struct LaunchPlanView {
    pub program: LocationView,
    pub args: Seq<Seq<char>>,
    pub working_dir: LocationView,
}

impl View for LaunchPlan {
    type V = LaunchPlanView;

    open spec fn view(&self) -> LaunchPlanView {
        LaunchPlanView {
            program: self.program@,
            args: Seq::new(self.args@.len(), |i: int| self.args@[i]@),
            working_dir: self.working_dir@,
        }
    }
}

/// The plan for a repository root.
pub open spec fn plan_for_root(root: LocationView) -> LaunchPlanView {
    LaunchPlanView { program: interpreter_spec(root), args: backend_args_spec(), working_dir: root }
}

/// The launch decision for an executable location, known or not.
pub open spec fn start_backend_spec(exe: Option<LocationView>) -> Result<LaunchPlanView, LaunchError> {
    match exe {
        None => Err(LaunchError::ExecutableUnknown),
        Some(e) => match repo_root_spec(e) {
            None => Err(LaunchError::RepoRootUnresolved),
            Some(root) => Ok(plan_for_root(root)),
        },
    }
}

/// The value of a launch decision.
pub open spec fn decision_view(decision: Result<LaunchPlan, LaunchError>) -> Result<
    LaunchPlanView,
    LaunchError,
> {
    match decision {
        Ok(plan) => Ok(plan@),
        Err(e) => Err(e),
    }
}

/// The repository root for an executable, or `None` when the executable has
/// fewer than five names below its anchor.
pub fn repo_root(exe: &Location) -> (root: Option<Location>)
    ensures
        view_of(root) == repo_root_spec(exe@),
        root is Some <==> exe@.names.len() >= ROOT_ASCENT + 1,
        root is Some ==> root.unwrap()@ == exe@.truncated(exe@.names.len() - (ROOT_ASCENT + 1)),
{
    proof {
        law_repo_root_is_fourth_ancestor(exe@);
    }
    match exe.parent() {
        Some(dir) => dir.ancestor(ROOT_ASCENT),
        None => None,
    }
}

/// The interpreter below a repository root.
pub fn interpreter(root: &Location) -> (program: Location)
    ensures
        program@ == interpreter_spec(root@),
{
    root.join("venv").join("Scripts").join("python.exe")
}

/// Decides how the backend is launched: the interpreter below the repository
/// root, the entry script as its only argument, the root as working directory.
/// Fails, without any other effect, when the executable is unknown or the root
/// cannot be reached.
pub fn start_backend(exe: Option<&Location>) -> (decision: Result<LaunchPlan, LaunchError>)
    ensures
        decision_view(decision) == start_backend_spec(
            match exe {
                Some(e) => Some(e@),
                None => None,
            },
        ),
        decision is Ok <==> exe is Some && exe.unwrap()@.names.len() >= ROOT_ASCENT + 1,
        decision is Err ==> decision->Err_0 == if exe is None {
            LaunchError::ExecutableUnknown
        } else {
            LaunchError::RepoRootUnresolved
        },
        decision is Ok ==> decision->Ok_0@ == plan_for_root(
            exe.unwrap()@.truncated(exe.unwrap()@.names.len() - (ROOT_ASCENT + 1)),
        ),
{
    match exe {
        None => Err(LaunchError::ExecutableUnknown),
        Some(e) => match repo_root(e) {
            None => Err(LaunchError::RepoRootUnresolved),
            Some(root) => {
                let program = interpreter(&root);
                let mut args: Vec<String> = Vec::new();
                args.push(String::from_str("backend/app.py"));
                let plan = LaunchPlan { program, args, working_dir: root };
                assert(plan@.args =~= backend_args_spec());
                Ok(plan)
            },
        },
    }
}

/// The log line for a launch that was not attempted.
pub fn launch_error_report(error: LaunchError) -> (report: Diagnostic)
    ensures
        error == LaunchError::ExecutableUnknown ==> report == Diagnostic::ExecutableUnknown,
        error == LaunchError::RepoRootUnresolved ==> report == Diagnostic::RepoRootUnresolved,
{
    match error {
        LaunchError::ExecutableUnknown => Diagnostic::ExecutableUnknown,
        LaunchError::RepoRootUnresolved => Diagnostic::RepoRootUnresolved,
    }
}

/// The log line for a spawn that was attempted: started, or the system's
/// reason why not.
pub fn spawn_report(spawned: Result<(), String>) -> (report: Diagnostic)
    ensures
        report == match spawned {
            Ok(_) => Diagnostic::BackendStarted,
            Err(reason) => Diagnostic::BackendNotStarted { reason },
        },
{
    match spawned {
        Ok(_) => Diagnostic::BackendStarted,
        Err(reason) => Diagnostic::BackendNotStarted { reason },
    }
}

/// For every executable location the repository root is exactly the fourth
/// ancestor of the executable's containing directory: it exists if and only if
/// the executable has at least five names below its anchor, and then it keeps
/// the anchor and all names but the last five.
pub proof fn law_repo_root_is_fourth_ancestor(exe: LocationView)
    ensures
        repo_root_spec(exe) == exe.ancestor((ROOT_ASCENT + 1) as nat),
        exe.names.len() >= ROOT_ASCENT + 1 ==> repo_root_spec(exe) == Some(
            exe.truncated(exe.names.len() - (ROOT_ASCENT + 1)),
        ),
        exe.names.len() < ROOT_ASCENT + 1 ==> repo_root_spec(exe) is None,
{
    lemma_ancestor_composes(exe, 1, ROOT_ASCENT as nat);
    lemma_ancestor_drops_names(exe, (ROOT_ASCENT + 1) as nat);
    reveal_with_fuel(LocationView::ancestor, 2);
}

/// A launch is planned exactly when the executable is known and its root can
/// be reached; the plan then runs in the root, and the interpreter lies three
/// names below it.
pub proof fn law_launch_plan_layout(exe: LocationView)
    ensures
        start_backend_spec(Some(exe)) is Ok <==> exe.names.len() >= ROOT_ASCENT + 1,
        start_backend_spec(None::<LocationView>) == Err::<LaunchPlanView, LaunchError>(
            LaunchError::ExecutableUnknown,
        ),
        start_backend_spec(Some(exe)) matches Ok(plan) ==> {
            &&& Some(plan.working_dir) == repo_root_spec(exe)
            &&& plan.program.ancestor(3) == Some(plan.working_dir)
            &&& plan.program.names == plan.working_dir.names + seq![
                "venv"@,
                "Scripts"@,
                "python.exe"@,
            ]
            &&& plan.args == backend_args_spec()
        },
{
    law_repo_root_is_fourth_ancestor(exe);
    if start_backend_spec(Some(exe)) is Ok {
        let plan = start_backend_spec(Some(exe)).unwrap();
        let root = plan.working_dir;
        lemma_ancestor_drops_names(plan.program, 3);
        assert(plan.program.names =~= root.names + seq!["venv"@, "Scripts"@, "python.exe"@]);
        assert(plan.program.names.take(plan.program.names.len() - 3) =~= root.names);
    }
}

} // verus!
