use vstd::prelude::*;

use crate::artifact::{artifact_dir, artifact_dir_spec, find_artifact, locate, DirEntry};
use crate::error::{outcome_view, BuildError, BuildErrorView};
use crate::invocation::{build_invocation, docker_argv, DockerInvocation};
use crate::options::BuildCommand;

verus! {

/// What reading the current working directory gave.
#[derive(Clone, Debug)]
pub enum PathReading {
    /// The directory, as valid UTF-8.
    Utf8(String),
    /// The directory is not valid UTF-8; its lossy rendering.
    NotUtf8(String),
    /// The directory could not be read; the cause.
    Unavailable(String),
}

/// What the outside world reports back after an action.
#[derive(Debug)]
pub enum Event {
    /// The current working directory was read.
    CurrentDir(PathReading),
    /// The container process could not be started.
    ContainerLaunchFailed,
    /// The container process ran and exited, successfully or not.
    ContainerExited { success: bool },
    /// The output directory was listed.
    DirectoryListed(Vec<DirEntry>),
    /// The output directory could not be listed.
    DirectoryUnreadable { cause: String },
    /// The local build ended with this outcome.
    LocalBuildFinished(Result<String, BuildError>),
}

/// Where a build run stands.
#[derive(Clone, Debug)]
pub enum Phase {
    /// Waiting for the current working directory, which is the project root.
    ResolvingRoot,
    /// The container build of the project at `root` was launched.
    AttemptingContainer { root: String },
    /// The container build succeeded; its output directory `dir` is listed.
    LocatingArtifact { dir: String },
    /// The container path failed; the local build runs instead.
    FallenBackToLocal,
    /// A local build was asked for and runs.
    BuildingLocally,
    /// The run has its outcome.
    Finished,
}

/// `Phase` with its texts as character sequences.
pub enum PhaseView {
    ResolvingRoot,
    AttemptingContainer { root: Seq<char> },
    LocatingArtifact { dir: Seq<char> },
    FallenBackToLocal,
    BuildingLocally,
    Finished,
}

impl View for Phase {
    type V = PhaseView;

    open spec fn view(&self) -> PhaseView {
        match self {
            Phase::ResolvingRoot => PhaseView::ResolvingRoot,
            Phase::AttemptingContainer { root } => PhaseView::AttemptingContainer { root: root@ },
            Phase::LocatingArtifact { dir } => PhaseView::LocatingArtifact { dir: dir@ },
            Phase::FallenBackToLocal => PhaseView::FallenBackToLocal,
            Phase::BuildingLocally => PhaseView::BuildingLocally,
            Phase::Finished => PhaseView::Finished,
        }
    }
}

/// What the caller is to do next.
#[derive(Debug)]
pub enum Action {
    /// Read the current working directory and report `CurrentDir`.
    ReadCurrentDir,
    /// Launch this process and report how it ended.
    LaunchContainer(DockerInvocation),
    /// List this directory and report the entries.
    ListDirectory(String),
    /// Run the local build with the options and report its outcome.
    RunLocal,
    /// Warn that the build goes on without verification, then run the local
    /// build and report its outcome.
    WarnAndRunLocal,
    /// The run is over with this outcome.
    Finish(Result<String, BuildError>),
    /// The event does not belong to the current phase; nothing changed.
    Ignore,
}

/// `Action` with its values as sequences.
pub enum ActionView {
    ReadCurrentDir,
    LaunchContainer(Seq<Seq<char>>),
    ListDirectory(Seq<char>),
    RunLocal,
    WarnAndRunLocal,
    Finish(Result<Seq<char>, BuildErrorView>),
    Ignore,
}

impl View for Action {
    type V = ActionView;

    open spec fn view(&self) -> ActionView {
        match self {
            Action::ReadCurrentDir => ActionView::ReadCurrentDir,
            Action::LaunchContainer(inv) => ActionView::LaunchContainer(inv.argv()),
            Action::ListDirectory(d) => ActionView::ListDirectory(d@),
            Action::RunLocal => ActionView::RunLocal,
            Action::WarnAndRunLocal => ActionView::WarnAndRunLocal,
            Action::Finish(r) => ActionView::Finish(outcome_view(*r)),
            Action::Ignore => ActionView::Ignore,
        }
    }
}

/// The first phase and action of a run with options `o` and container image
/// `image`: a local build when asked for, else the container build of the
/// project root, which is read first when the options do not give it.
pub open spec fn begin(o: BuildCommand, image: Seq<char>) -> (PhaseView, ActionView) {
    if o.no_docker {
        (PhaseView::BuildingLocally, ActionView::RunLocal)
    } else {
        match o.manifest_path {
            Some(root) => (
                PhaseView::AttemptingContainer { root: root@ },
                ActionView::LaunchContainer(docker_argv(o, root@, image)),
            ),
            None => (PhaseView::ResolvingRoot, ActionView::ReadCurrentDir),
        }
    }
}

/// The phase and action that follow event `e` in phase `p`.
pub open spec fn next(o: BuildCommand, image: Seq<char>, p: PhaseView, e: Event) -> (
    PhaseView,
    ActionView,
) {
    match (p, e) {
        (PhaseView::ResolvingRoot, Event::CurrentDir(reading)) => match reading {
            PathReading::Utf8(root) => (
                PhaseView::AttemptingContainer { root: root@ },
                ActionView::LaunchContainer(docker_argv(o, root@, image)),
            ),
            PathReading::NotUtf8(raw) => (
                PhaseView::Finished,
                ActionView::Finish(Err(BuildErrorView::PathConversionFailure { raw: raw@ })),
            ),
            PathReading::Unavailable(cause) => (
                PhaseView::Finished,
                ActionView::Finish(Err(BuildErrorView::WorkingDirUnavailable { cause: cause@ })),
            ),
        },
        (PhaseView::AttemptingContainer { root }, Event::ContainerLaunchFailed) => (
            PhaseView::FallenBackToLocal,
            ActionView::WarnAndRunLocal,
        ),
        (PhaseView::AttemptingContainer { root }, Event::ContainerExited { success }) => {
            if success {
                (
                    PhaseView::LocatingArtifact { dir: artifact_dir_spec(root) },
                    ActionView::ListDirectory(artifact_dir_spec(root)),
                )
            } else {
                (PhaseView::FallenBackToLocal, ActionView::WarnAndRunLocal)
            }
        },
        (PhaseView::LocatingArtifact { dir }, Event::DirectoryListed(entries)) => (
            PhaseView::Finished,
            ActionView::Finish(locate(dir, entries@)),
        ),
        (PhaseView::LocatingArtifact { dir }, Event::DirectoryUnreadable { cause }) => (
            PhaseView::Finished,
            ActionView::Finish(Err(BuildErrorView::DirectoryUnreadable { dir, cause: cause@ })),
        ),
        (PhaseView::FallenBackToLocal, Event::LocalBuildFinished(r)) => (
            PhaseView::Finished,
            ActionView::Finish(outcome_view(r)),
        ),
        (PhaseView::BuildingLocally, Event::LocalBuildFinished(r)) => (
            PhaseView::Finished,
            ActionView::Finish(outcome_view(r)),
        ),
        _ => (p, ActionView::Ignore),
    }
}

/// A build run: the options, the container image, and where the run stands.
#[derive(Clone, Debug)]
pub struct Orchestrator {
    pub options: BuildCommand,
    pub image: String,
    pub phase: Phase,
}

impl Orchestrator {
    /// Starts a run with `options`, using the container image `image`.
    pub fn start(options: BuildCommand, image: String) -> (r: (Orchestrator, Action))
        ensures
            r.0.options == options,
            r.0.image == image,
            (r.0.phase@, r.1@) == begin(options, image@),
    {
        if options.no_docker {
            return (Orchestrator { options, image, phase: Phase::BuildingLocally }, Action::RunLocal);
        }
        let (phase, action) = match &options.manifest_path {
            Some(root) => {
                let inv = build_invocation(&options, root.as_str(), image.as_str());
                (Phase::AttemptingContainer { root: root.clone() }, Action::LaunchContainer(inv))
            },
            None => (Phase::ResolvingRoot, Action::ReadCurrentDir),
        };
        (Orchestrator { options, image, phase }, action)
    }

    /// Takes in what the last action brought about and says what to do next.
    pub fn step(&mut self, event: Event) -> (a: Action)
        ensures
            final(self).options == old(self).options,
            final(self).image == old(self).image,
            (final(self).phase@, a@) == next(old(self).options, old(self).image@, old(self).phase@, event),
    {
        let (phase, action) = match (&self.phase, event) {
            (Phase::ResolvingRoot, Event::CurrentDir(reading)) => match reading {
                PathReading::Utf8(root) => {
                    let inv = build_invocation(&self.options, root.as_str(), self.image.as_str());
                    (Phase::AttemptingContainer { root }, Action::LaunchContainer(inv))
                },
                PathReading::NotUtf8(raw) => (
                    Phase::Finished,
                    Action::Finish(Err(BuildError::PathConversionFailure { raw })),
                ),
                PathReading::Unavailable(cause) => (
                    Phase::Finished,
                    Action::Finish(Err(BuildError::WorkingDirUnavailable { cause })),
                ),
            },
            (Phase::AttemptingContainer { root: _ }, Event::ContainerLaunchFailed) => (
                Phase::FallenBackToLocal,
                Action::WarnAndRunLocal,
            ),
            (Phase::AttemptingContainer { root }, Event::ContainerExited { success }) => {
                if success {
                    let dir = artifact_dir(root.as_str());
                    (Phase::LocatingArtifact { dir: dir.clone() }, Action::ListDirectory(dir))
                } else {
                    (Phase::FallenBackToLocal, Action::WarnAndRunLocal)
                }
            },
            (Phase::LocatingArtifact { dir }, Event::DirectoryListed(entries)) => (
                Phase::Finished,
                Action::Finish(find_artifact(dir, &entries)),
            ),
            (Phase::LocatingArtifact { dir }, Event::DirectoryUnreadable { cause }) => (
                Phase::Finished,
                Action::Finish(Err(BuildError::DirectoryUnreadable { dir: dir.clone(), cause })),
            ),
            (Phase::FallenBackToLocal, Event::LocalBuildFinished(r)) => (
                Phase::Finished,
                Action::Finish(r),
            ),
            (Phase::BuildingLocally, Event::LocalBuildFinished(r)) => (
                Phase::Finished,
                Action::Finish(r),
            ),
            (_, _) => {
                return Action::Ignore;
            },
        };
        self.phase = phase;
        action
    }

    /// Whether the run has its outcome.
    pub fn is_finished(&self) -> (r: bool)
        ensures
            r == (self.phase@ is Finished),
    {
        match self.phase {
            Phase::Finished => true,
            _ => false,
        }
    }
}

/// The warning shown when the build goes on without the container.
pub open spec fn fallback_warning_spec() -> Seq<char> {
    "WARNING! Compilation without SourceScan verification"@
}

/// The warning shown when the build goes on without the container.
pub fn fallback_warning() -> (r: String)
    ensures
        r@ == fallback_warning_spec(),
{
    "WARNING! Compilation without SourceScan verification".to_owned()
}

} // verus!
