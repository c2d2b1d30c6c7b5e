//! Where the backend lives: paths as an anchor with named segments, and the
//! rule that finds the backend's interpreter and entry point.
//!
//! A path is held apart from any separator. Its anchor is what stands before
//! the first name (a root, a drive, or nothing for a relative path) and its
//! segments are the names that follow, so that the rule reads the same on
//! every operating system.

use vstd::prelude::*;
use crate::error::{ShellError, ShellErrorView};
use crate::platform::{BuildMode, OsFamily};
use crate::views::{view_option, view_result};

verus! {

/// A path: an anchor and the names below it, outermost first.
#[derive(Clone, Debug, PartialEq, Eq)]
pub struct FsPath {
    pub anchor: String,
    pub segments: Vec<String>,
}

/// What an [`FsPath`] holds, as mathematical values.
pub struct FsPathView {
    pub anchor: Seq<char>,
    pub segments: Seq<Seq<char>>,
}

impl View for FsPath {
    type V = FsPathView;

    open spec fn view(&self) -> FsPathView {
        FsPathView { anchor: self.anchor@, segments: self.segments.deep_view() }
    }
}

impl FsPathView {
    /// The path one level up: the same anchor without the last segment. A
    /// path without segments has no parent.
    pub open spec fn parent(self) -> Option<FsPathView> {
        if self.segments.len() == 0 {
            None
        } else {
            Some(FsPathView { anchor: self.anchor, segments: self.segments.drop_last() })
        }
    }

    /// The path of `name` directly below this one.
    pub open spec fn child(self, name: Seq<char>) -> FsPathView {
        FsPathView { anchor: self.anchor, segments: self.segments.push(name) }
    }

    /// The last segment: the name of the file or directory itself.
    pub open spec fn name(self) -> Seq<char>
        recommends
            self.segments.len() > 0,
    {
        self.segments.last()
    }
}

/// Copies the first `count` names of `names`.
fn copy_names(names: &Vec<String>, count: usize) -> (copy: Vec<String>)
    requires
        count <= names.len(),
    ensures
        copy@ == names@.take(count as int),
{
    let mut copy: Vec<String> = Vec::new();
    let mut index: usize = 0;
    while index < count
        invariant
            index <= count <= names.len(),
            copy@ == names@.take(index as int),
        decreases count - index,
    {
        copy.push(names[index].clone());
        index += 1;
        assert(copy@ =~= names@.take(index as int));
    }
    copy
}

impl FsPath {
    /// The path one level up, if there is one.
    pub fn parent(&self) -> (up: Option<FsPath>)
        ensures
            view_option(up) == self@.parent(),
    {
        let count = self.segments.len();
        if count == 0 {
            None
        } else {
            let segments = copy_names(&self.segments, count - 1);
            assert(segments.deep_view() =~= self.segments.deep_view().drop_last());
            Some(FsPath { anchor: self.anchor.clone(), segments })
        }
    }

    /// The path of `name` directly below this one.
    pub fn child(&self, name: &str) -> (below: FsPath)
        ensures
            below@ == self@.child(name@),
    {
        let mut segments = copy_names(&self.segments, self.segments.len());
        segments.push(String::from_str(name));
        assert(segments.deep_view() =~= self.segments.deep_view().push(name@));
        FsPath { anchor: self.anchor.clone(), segments }
    }
}

/// The directory that the search for the backend starts from.
#[derive(Clone, Copy, Debug, PartialEq, Eq, Structural)]
pub enum BaseDirectory {
    /// The directory that the application was started in.
    WorkingDirectory,
    /// The directory that holds the resources packaged with the application.
    ResourceDirectory,
}

/// What is needed to start the backend: the interpreter to run, the entry
/// point to hand it as its one argument, and the directory to run it in.
#[derive(Clone, Debug, PartialEq, Eq)]
pub struct BackendLaunch {
    pub working_dir: FsPath,
    pub interpreter: FsPath,
    pub entry_point: FsPath,
}

/// What a [`BackendLaunch`] holds, as mathematical values.
pub struct BackendLaunchView {
    pub working_dir: FsPathView,
    pub interpreter: FsPathView,
    pub entry_point: FsPathView,
}

impl View for BackendLaunch {
    type V = BackendLaunchView;

    open spec fn view(&self) -> BackendLaunchView {
        BackendLaunchView {
            working_dir: self.working_dir@,
            interpreter: self.interpreter@,
            entry_point: self.entry_point@,
        }
    }
}

/// The directory that a build searches from: a developer's build its working
/// directory, a packaged build its resource directory.
pub open spec fn base_directory_of(mode: BuildMode) -> BaseDirectory {
    match mode {
        BuildMode::Development => BaseDirectory::WorkingDirectory,
        BuildMode::Production => BaseDirectory::ResourceDirectory,
    }
}

/// The backend's directory. A developer's build runs one level inside the
/// project, so the backend is the `backend` directory beside the working
/// directory; a packaged build holds it directly below its resources.
pub open spec fn backend_dir_of(mode: BuildMode, base: FsPathView) -> Option<FsPathView> {
    match mode {
        BuildMode::Development => match base.parent() {
            Some(project) => Some(project.child("backend"@)),
            None => None,
        },
        BuildMode::Production => Some(base.child("backend"@)),
    }
}

/// The interpreter of the backend's own environment: `venv/Scripts/python.exe`
/// below the backend on Windows, `venv/bin/python` elsewhere.
pub open spec fn interpreter_of(os: OsFamily, backend: FsPathView) -> FsPathView {
    match os {
        OsFamily::Windows => backend.child("venv"@).child("Scripts"@).child("python.exe"@),
        _ => backend.child("venv"@).child("bin"@).child("python"@),
    }
}

/// The backend's entry point: `main.py` directly below the backend.
pub open spec fn entry_point_of(backend: FsPathView) -> FsPathView {
    backend.child("main.py"@)
}

/// The launch that a backend directory stands for.
pub open spec fn launch_in(os: OsFamily, backend: FsPathView) -> BackendLaunchView {
    BackendLaunchView {
        working_dir: backend,
        interpreter: interpreter_of(os, backend),
        entry_point: entry_point_of(backend),
    }
}

/// The whole rule. `located` is the base directory as the machine gave it, or
/// the reason why it gave none. The launch is owed whenever the base directory
/// is known and, in a developer's build, has a parent; every other case is a
/// path resolution failure that carries the reason.
pub open spec fn launch_plan_of(
    mode: BuildMode,
    os: OsFamily,
    located: Result<FsPathView, Seq<char>>,
) -> Result<BackendLaunchView, ShellErrorView> {
    match located {
        Err(reason) => Err(ShellErrorView::PathResolution(reason)),
        Ok(base) => match backend_dir_of(mode, base) {
            Some(backend) => Ok(launch_in(os, backend)),
            None => Err(ShellErrorView::PathResolution("Failed to get parent directory"@)),
        },
    }
}

/// Which directory the shell has to look up before it can plan the launch.
pub fn base_directory(mode: BuildMode) -> (base: BaseDirectory)
    ensures
        base == base_directory_of(mode),
{
    match mode {
        BuildMode::Development => BaseDirectory::WorkingDirectory,
        BuildMode::Production => BaseDirectory::ResourceDirectory,
    }
}

/// Finds the backend's directory from the base directory.
fn backend_dir(mode: BuildMode, base: &FsPath) -> (backend: Option<FsPath>)
    ensures
        view_option(backend) == backend_dir_of(mode, base@),
{
    match mode {
        BuildMode::Development => match base.parent() {
            Some(project) => Some(project.child("backend")),
            None => None,
        },
        BuildMode::Production => Some(base.child("backend")),
    }
}

/// Plans the launch of the backend from the build mode, the operating system
/// and the base directory that [`base_directory`] asked for.
pub fn plan_backend_launch(mode: BuildMode, os: OsFamily, located: Result<FsPath, String>) -> (plan:
    Result<BackendLaunch, ShellError>)
    ensures
        view_result(plan) == launch_plan_of(mode, os, view_result(located)),
{
    match located {
        Err(reason) => Err(ShellError::PathResolution(reason)),
        Ok(base) => match backend_dir(mode, &base) {
            None => Err(
                ShellError::PathResolution(String::from_str("Failed to get parent directory")),
            ),
            Some(backend) => {
                let environment = backend.child("venv");
                let interpreter = match os {
                    OsFamily::Windows => environment.child("Scripts").child("python.exe"),
                    _ => environment.child("bin").child("python"),
                };
                let entry_point = backend.child("main.py");
                Ok(BackendLaunch { working_dir: backend, interpreter, entry_point })
            },
        },
    }
}

/// Whenever the base directory is known and, in a developer's build, has a
/// parent, the launch is planned, whatever the build mode and the operating
/// system. The backend then runs in a directory named `backend`, the entry
/// point lies directly below that directory and the interpreter three levels
/// below it, both under the anchor of the base directory, and neither the
/// interpreter's name nor the entry point's is empty.
pub proof fn lemma_launch_paths_nonempty(mode: BuildMode, os: OsFamily, base: FsPathView)
    requires
        mode == BuildMode::Development ==> base.segments.len() > 0,
    ensures
        launch_plan_of(mode, os, Ok(base)) is Ok,
        launch_plan_of(mode, os, Ok(base))->Ok_0.working_dir.anchor == base.anchor,
        launch_plan_of(mode, os, Ok(base))->Ok_0.working_dir.name() == "backend"@,
        launch_plan_of(mode, os, Ok(base))->Ok_0.entry_point.parent() == Some(
            launch_plan_of(mode, os, Ok(base))->Ok_0.working_dir,
        ),
        launch_plan_of(mode, os, Ok(base))->Ok_0.entry_point.name().len() > 0,
        launch_plan_of(mode, os, Ok(base))->Ok_0.interpreter.anchor == base.anchor,
        launch_plan_of(mode, os, Ok(base))->Ok_0.interpreter.segments.len()
            == launch_plan_of(mode, os, Ok(base))->Ok_0.working_dir.segments.len() + 3,
        launch_plan_of(mode, os, Ok(base))->Ok_0.interpreter.segments.take(
            launch_plan_of(mode, os, Ok(base))->Ok_0.working_dir.segments.len() as int,
        ) == launch_plan_of(mode, os, Ok(base))->Ok_0.working_dir.segments,
        launch_plan_of(mode, os, Ok(base))->Ok_0.interpreter.name().len() > 0,
{
    reveal_strlit("python.exe");
    reveal_strlit("python");
    reveal_strlit("main.py");
    let plan = launch_plan_of(mode, os, Ok(base))->Ok_0;
    assert(plan.entry_point.segments.drop_last() =~= plan.working_dir.segments);
    assert(plan.interpreter.segments.take(plan.working_dir.segments.len() as int)
        =~= plan.working_dir.segments);
}

/// The launch fails in two cases and no others: the base directory is not
/// known, or the build is a developer's and the base directory has no parent.
/// Either way the failure is a path resolution failure.
pub proof fn lemma_launch_fails_only_without_directory(
    mode: BuildMode,
    os: OsFamily,
    located: Result<FsPathView, Seq<char>>,
)
    ensures
        launch_plan_of(mode, os, located) is Err <==> (located is Err || (mode
            == BuildMode::Development && located->Ok_0.segments.len() == 0)),
        launch_plan_of(mode, os, located) is Err ==> launch_plan_of(mode, os, located)->Err_0
            is PathResolution,
{
}

} // verus!
