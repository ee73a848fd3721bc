//! The error type of the library.

use vstd::prelude::*;

verus! {

/// `std::io::Error`, carried through unread.
#[verifier::external_type_specification]
#[verifier::external_body]
pub struct ExIoError(std::io::Error);

/// `serde_json::Error`, carried through unread.
#[verifier::external_type_specification]
#[verifier::external_body]
pub struct ExJsonError(serde_json::Error);

/// Why an environment variable gave no value.
#[derive(Debug, Clone, Copy, PartialEq, Eq)]
pub enum VarError {
    /// The variable is unset or empty.
    NotPresent,
}

/// Everything that can go wrong on the way to a capture.
#[derive(Debug)]
pub enum AppError {
    /// A compositor's environment variable is missing.
    CompositorEnvVar(&'static str, VarError),
    /// The exchange over a compositor's socket failed.
    CompositorIpc(String, std::io::Error),
    /// A compositor's reply is no JSON.
    JsonParse(String, serde_json::Error),
    /// A compositor refused a request, or its reply has the wrong shape.
    CompositorProtocol(String),
    /// No supported compositor can be used.
    UnsupportedCompositor(String),
    /// A Wayland request failed, or could not be made.
    Wayland(String),
}

/// What an [`AppError`] says, with its texts as sequences of characters.
pub enum AppErrorView {
    CompositorEnvVar(Seq<char>, VarError),
    CompositorIpc(Seq<char>, std::io::Error),
    JsonParse(Seq<char>, serde_json::Error),
    CompositorProtocol(Seq<char>),
    UnsupportedCompositor(Seq<char>),
    Wayland(Seq<char>),
}

impl View for AppError {
    type V = AppErrorView;

    open spec fn view(&self) -> AppErrorView {
        match *self {
            AppError::CompositorEnvVar(name, cause) => AppErrorView::CompositorEnvVar(
                name@,
                cause,
            ),
            AppError::CompositorIpc(text, cause) => AppErrorView::CompositorIpc(text@, cause),
            AppError::JsonParse(text, cause) => AppErrorView::JsonParse(text@, cause),
            AppError::CompositorProtocol(text) => AppErrorView::CompositorProtocol(text@),
            AppError::UnsupportedCompositor(text) => AppErrorView::UnsupportedCompositor(text@),
            AppError::Wayland(text) => AppErrorView::Wayland(text@),
        }
    }
}

/// A result with its error seen through its view.
pub open spec fn outcome<T>(result: Result<T, AppError>) -> Result<T, AppErrorView> {
    match result {
        Ok(value) => Ok(value),
        Err(error) => Err(error@),
    }
}

/// The view of an error keeps its variant, its text and its cause.
pub proof fn error_views_keep_everything(error: AppError)
    ensures
        match error {
            AppError::CompositorEnvVar(name, cause) => error@ == AppErrorView::CompositorEnvVar(
                name@,
                cause,
            ),
            AppError::CompositorIpc(text, cause) => error@ == AppErrorView::CompositorIpc(
                text@,
                cause,
            ),
            AppError::JsonParse(text, cause) => error@ == AppErrorView::JsonParse(text@, cause),
            AppError::CompositorProtocol(text) => error@ == AppErrorView::CompositorProtocol(
                text@,
            ),
            AppError::UnsupportedCompositor(text) => error@
                == AppErrorView::UnsupportedCompositor(text@),
            AppError::Wayland(text) => error@ == AppErrorView::Wayland(text@),
        },
{
}

/// The view of a result keeps its value, and its error's view.
pub proof fn outcomes_keep_everything<T>(value: T, error: AppError)
    ensures
        outcome(Ok::<T, AppError>(value)) == Ok::<T, AppErrorView>(value),
        outcome(Err::<T, AppError>(error)) == Err::<T, AppErrorView>(error@),
{
}

} // verus!
