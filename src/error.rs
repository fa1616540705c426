use vstd::prelude::*;

verus! {

/// Failures that end a build run.
#[derive(Clone, Debug)]
pub enum BuildError {
    /// The container build succeeded but no artifact was in its output directory.
    ArtifactNotFound { dir: String },
    /// The container's output directory could not be listed.
    DirectoryUnreadable { dir: String, cause: String },
    /// A path is not valid UTF-8; `raw` is its lossy rendering.
    PathConversionFailure { raw: String },
    /// The current working directory could not be determined.
    WorkingDirUnavailable { cause: String },
    /// The local build failed.
    LocalBuildFailed { message: String },
}

/// `BuildError` with its texts as character sequences.
pub enum BuildErrorView {
    ArtifactNotFound { dir: Seq<char> },
    DirectoryUnreadable { dir: Seq<char>, cause: Seq<char> },
    PathConversionFailure { raw: Seq<char> },
    WorkingDirUnavailable { cause: Seq<char> },
    LocalBuildFailed { message: Seq<char> },
}

impl View for BuildError {
    type V = BuildErrorView;

    open spec fn view(&self) -> BuildErrorView {
        match self {
            BuildError::ArtifactNotFound { dir } => BuildErrorView::ArtifactNotFound { dir: dir@ },
            BuildError::DirectoryUnreadable { dir, cause } => BuildErrorView::DirectoryUnreadable {
                dir: dir@,
                cause: cause@,
            },
            BuildError::PathConversionFailure { raw } => BuildErrorView::PathConversionFailure {
                raw: raw@,
            },
            BuildError::WorkingDirUnavailable { cause } => BuildErrorView::WorkingDirUnavailable {
                cause: cause@,
            },
            BuildError::LocalBuildFailed { message } => BuildErrorView::LocalBuildFailed {
                message: message@,
            },
        }
    }
}

/// The outcome of a build: the artifact's path, or the error.
pub open spec fn outcome_view(r: Result<String, BuildError>) -> Result<Seq<char>, BuildErrorView> {
    match r {
        Ok(p) => Ok(p@),
        Err(e) => Err(e@),
    }
}

} // verus!
