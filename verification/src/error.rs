//! Why a target could not be removed, and how each target ended.

use crate::text::enclose;
use vstd::prelude::*;
use vstd::string::StringExecFns;

verus! {

/// The reason why a target was not removed.
#[derive(Debug, PartialEq, Eq)]
pub enum DeleteError {
    /// Nothing exists at `path`.
    NotFound { path: String },
    /// `path` is a directory, and neither recursion nor the removal of empty
    /// directories was asked for.
    IsADirectory { path: String },
    /// The file system refused to change `path`; `cause` says why, in its own
    /// words.
    RemoveError { path: String, cause: String },
    /// `path` is neither a file nor a directory.
    UnsupportedType { path: String },
}

/// The mathematical value of a [`DeleteError`].
pub enum DeleteErrorView {
    NotFound { path: Seq<char> },
    IsADirectory { path: Seq<char> },
    RemoveError { path: Seq<char>, cause: Seq<char> },
    UnsupportedType { path: Seq<char> },
}

impl DeleteErrorView {
    /// The path that the error is about.
    pub open spec fn path(self) -> Seq<char> {
        match self {
            DeleteErrorView::NotFound { path } => path,
            DeleteErrorView::IsADirectory { path } => path,
            DeleteErrorView::RemoveError { path, .. } => path,
            DeleteErrorView::UnsupportedType { path } => path,
        }
    }

    /// The error in words, as it is shown to the user.
    pub open spec fn message(self) -> Seq<char> {
        match self {
            DeleteErrorView::NotFound { path } => "cannot remove '"@ + path
                + "': No such file or directory"@,
            DeleteErrorView::IsADirectory { path } => "cannot remove '"@ + path
                + "': Is a directory"@,
            DeleteErrorView::RemoveError { path, cause } => "cannot remove '"@ + path + "': "@
                + cause,
            DeleteErrorView::UnsupportedType { path } => "unsupported file type: "@ + path,
        }
    }
}

impl View for DeleteError {
    type V = DeleteErrorView;

    open spec fn view(&self) -> DeleteErrorView {
        match *self {
            DeleteError::NotFound { path } => DeleteErrorView::NotFound { path: path@ },
            DeleteError::IsADirectory { path } => DeleteErrorView::IsADirectory { path: path@ },
            DeleteError::RemoveError { path, cause } => DeleteErrorView::RemoveError {
                path: path@,
                cause: cause@,
            },
            DeleteError::UnsupportedType { path } => DeleteErrorView::UnsupportedType {
                path: path@,
            },
        }
    }
}

impl DeleteError {
    /// The path that the error is about.
    pub fn path(&self) -> (path: &String)
        ensures
            path@ == self@.path(),
    {
        match self {
            DeleteError::NotFound { path } => path,
            DeleteError::IsADirectory { path } => path,
            DeleteError::RemoveError { path, .. } => path,
            DeleteError::UnsupportedType { path } => path,
        }
    }

    /// Words the error for the user.
    pub fn message(&self) -> (text: String)
        ensures
            text@ == self@.message(),
    {
        match self {
            DeleteError::NotFound { path } => enclose(
                "cannot remove '",
                path,
                "': No such file or directory",
            ),
            DeleteError::IsADirectory { path } => enclose(
                "cannot remove '",
                path,
                "': Is a directory",
            ),
            DeleteError::RemoveError { path, cause } => enclose("cannot remove '", path, "': ").concat(
                cause.as_str(),
            ),
            DeleteError::UnsupportedType { path } => String::from_str(
                "unsupported file type: ",
            ).concat(path.as_str()),
        }
    }

    /// A second copy of the error.
    pub fn duplicate(&self) -> (copy: DeleteError)
        ensures
            copy@ == self@,
    {
        match self {
            DeleteError::NotFound { path } => DeleteError::NotFound { path: path.clone() },
            DeleteError::IsADirectory { path } => DeleteError::IsADirectory { path: path.clone() },
            DeleteError::RemoveError { path, cause } => DeleteError::RemoveError {
                path: path.clone(),
                cause: cause.clone(),
            },
            DeleteError::UnsupportedType { path } => DeleteError::UnsupportedType {
                path: path.clone(),
            },
        }
    }
}

/// How the attempt on one target ended.
#[derive(Debug, PartialEq, Eq)]
pub enum Outcome {
    /// The target is gone.
    Removed,
    /// The target did not exist, and the configuration tolerates that.
    SkippedMissing,
    /// The target was not removed, or not wholly.
    Failed(DeleteError),
}

/// The mathematical value of an [`Outcome`].
pub enum OutcomeView {
    Removed,
    SkippedMissing,
    Failed(DeleteErrorView),
}

impl OutcomeView {
    /// The outcome as success or failure: only `Failed` is a failure.
    pub open spec fn result(self) -> Result<(), DeleteErrorView> {
        match self {
            OutcomeView::Removed => Ok(()),
            OutcomeView::SkippedMissing => Ok(()),
            OutcomeView::Failed(error) => Err(error),
        }
    }
}

impl View for Outcome {
    type V = OutcomeView;

    open spec fn view(&self) -> OutcomeView {
        match *self {
            Outcome::Removed => OutcomeView::Removed,
            Outcome::SkippedMissing => OutcomeView::SkippedMissing,
            Outcome::Failed(error) => OutcomeView::Failed(error@),
        }
    }
}

/// The view of a result that carries a [`DeleteError`].
pub open spec fn result_view(result: Result<(), DeleteError>) -> Result<(), DeleteErrorView> {
    match result {
        Ok(()) => Ok(()),
        Err(error) => Err(error@),
    }
}

impl Outcome {
    /// Whether the target was dealt with: removed, or missing and tolerated.
    pub fn is_success(&self) -> (yes: bool)
        ensures
            yes == self@.result().is_ok(),
    {
        match self {
            Outcome::Failed(_) => false,
            _ => true,
        }
    }

    /// Turns the outcome into success or failure.
    pub fn into_result(self) -> (result: Result<(), DeleteError>)
        ensures
            result_view(result) == self@.result(),
    {
        match self {
            Outcome::Removed => Ok(()),
            Outcome::SkippedMissing => Ok(()),
            Outcome::Failed(error) => Err(error),
        }
    }

    /// A second copy of the outcome.
    pub fn duplicate(&self) -> (copy: Outcome)
        ensures
            copy@ == self@,
    {
        match self {
            Outcome::Removed => Outcome::Removed,
            Outcome::SkippedMissing => Outcome::SkippedMissing,
            Outcome::Failed(error) => Outcome::Failed(error.duplicate()),
        }
    }
}

} // verus!
