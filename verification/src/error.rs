//! The ways in which a build can fail.

use vstd::prelude::*;

verus! {

/// Why a build did not go through.
#[derive(Clone, Debug, PartialEq, Eq)]
pub enum BuildError {
    /// A directory could not be entered, created or gone back to.
    Filesystem { path: String, message: String },
    /// The persisted settings are not a document of the expected shape.
    ConfigParse { message: String },
    /// A command could not be started, or ended with a status other than zero.
    CommandFailed { command: String, status: Option<i32> },
    /// The workspace directory of the settings does not exist.
    MissingWorkspace { path: String },
}

/// A `BuildError` with its strings as sequences of characters.
pub enum BuildErrorView {
    Filesystem { path: Seq<char>, message: Seq<char> },
    ConfigParse { message: Seq<char> },
    CommandFailed { command: Seq<char>, status: Option<i32> },
    MissingWorkspace { path: Seq<char> },
}

impl DeepView for BuildError {
    type V = BuildErrorView;

    open spec fn deep_view(&self) -> BuildErrorView {
        match self {
            BuildError::Filesystem { path, message } => BuildErrorView::Filesystem {
                path: path@,
                message: message@,
            },
            BuildError::ConfigParse { message } => BuildErrorView::ConfigParse {
                message: message@,
            },
            BuildError::CommandFailed { command, status } => BuildErrorView::CommandFailed {
                command: command@,
                status: *status,
            },
            BuildError::MissingWorkspace { path } => BuildErrorView::MissingWorkspace {
                path: path@,
            },
        }
    }
}

impl BuildError {
    /// A copy of the error.
    pub fn duplicate(&self) -> (r: BuildError)
        ensures
            r.deep_view() == self.deep_view(),
    {
        match self {
            BuildError::Filesystem { path, message } => BuildError::Filesystem {
                path: path.clone(),
                message: message.clone(),
            },
            BuildError::ConfigParse { message } => BuildError::ConfigParse {
                message: message.clone(),
            },
            BuildError::CommandFailed { command, status } => BuildError::CommandFailed {
                command: command.clone(),
                status: *status,
            },
            BuildError::MissingWorkspace { path } => BuildError::MissingWorkspace {
                path: path.clone(),
            },
        }
    }
}

} // verus!
