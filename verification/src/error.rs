//! Errors of the runtime and of the operating system underneath it.

use vstd::prelude::*;

use crate::model::{ServiceError, ServiceErrorCode, ServiceErrorView};
use crate::text::{copy_opt, join2, opt_text, owned};

verus! {

/// The kind of an I/O failure, as far as the library tells kinds apart.
#[derive(Clone, Copy, Debug, PartialEq, Eq, Structural)]
pub enum IoErrorKind {
    NotFound,
    PermissionDenied,
    AddrInUse,
    InvalidInput,
    InvalidData,
    Unsupported,
    UnexpectedEof,
    BrokenPipe,
    ConnectionAborted,
    ConnectionReset,
    NotConnected,
    WouldBlock,
    Other,
}

/// An I/O failure: its kind and its message.
#[derive(Debug)]
pub struct IoFailure {
    pub kind: IoErrorKind,
    pub message: String,
}

/// The model of an [`IoFailure`].
#[verifier::ext_equal]
pub struct IoFailureView {
    pub kind: IoErrorKind,
    pub message: Seq<char>,
}

impl View for IoFailure {
    type V = IoFailureView;

    open spec fn view(&self) -> IoFailureView {
        IoFailureView { kind: self.kind, message: self.message@ }
    }
}

impl IoFailure {
    pub fn new(kind: IoErrorKind, message: &str) -> (r: Self)
        ensures
            r@ == (IoFailureView { kind, message: message@ }),
    {
        IoFailure { kind, message: owned(message) }
    }
}

impl Clone for IoFailure {
    fn clone(&self) -> (r: Self)
        ensures
            r == *self,
    {
        IoFailure { kind: self.kind, message: self.message.clone() }
    }
}

/// Errors returned by direct runtime operations.
///
/// The error holds a semantic service code, so that a service can hand it to its
/// clients without making direct callers deal with transport errors.
#[derive(Debug)]
pub enum RuntimeError {
    Secret { code: ServiceErrorCode, message: String, retryable: bool, details: Option<String> },
    Setup { code: ServiceErrorCode, message: String, retryable: bool, details: Option<String> },
    Api { code: ServiceErrorCode, message: String, retryable: bool, details: Option<String> },
    InvalidState {
        code: ServiceErrorCode,
        message: String,
        retryable: bool,
        details: Option<String>,
    },
    Io(IoFailure),
    Stopped,
}

/// The area of the runtime that an error comes from.
#[derive(Clone, Copy, Debug, PartialEq, Eq, Structural)]
pub enum ErrorArea {
    Secret,
    Setup,
    Api,
    InvalidState,
}

/// The model of a [`RuntimeError`].
#[verifier::ext_equal]
pub enum RuntimeErrorView {
    Failure(ErrorArea, ServiceErrorView),
    Io(IoFailureView),
    Stopped,
}

/// The model of a service error without details.
pub open spec fn plain_error(
    code: ServiceErrorCode,
    message: Seq<char>,
    retryable: bool,
) -> ServiceErrorView {
    ServiceErrorView { code, message, retryable, details: None }
}

impl View for RuntimeError {
    type V = RuntimeErrorView;

    open spec fn view(&self) -> RuntimeErrorView {
        match *self {
            RuntimeError::Secret { code, message, retryable, details } => RuntimeErrorView::Failure(
                ErrorArea::Secret,
                ServiceErrorView { code, message: message@, retryable, details: opt_text(details) },
            ),
            RuntimeError::Setup { code, message, retryable, details } => RuntimeErrorView::Failure(
                ErrorArea::Setup,
                ServiceErrorView { code, message: message@, retryable, details: opt_text(details) },
            ),
            RuntimeError::Api { code, message, retryable, details } => RuntimeErrorView::Failure(
                ErrorArea::Api,
                ServiceErrorView { code, message: message@, retryable, details: opt_text(details) },
            ),
            RuntimeError::InvalidState {
                code,
                message,
                retryable,
                details,
            } => RuntimeErrorView::Failure(
                ErrorArea::InvalidState,
                ServiceErrorView { code, message: message@, retryable, details: opt_text(details) },
            ),
            RuntimeError::Io(failure) => RuntimeErrorView::Io(failure@),
            RuntimeError::Stopped => RuntimeErrorView::Stopped,
        }
    }
}

impl RuntimeErrorView {
    /// The error that a service client sees.
    pub open spec fn service_error(self) -> ServiceErrorView {
        match self {
            RuntimeErrorView::Failure(area, error) => error,
            RuntimeErrorView::Io(failure) => plain_error(
                ServiceErrorCode::Internal,
                failure.message,
                true,
            ),
            RuntimeErrorView::Stopped => plain_error(
                ServiceErrorCode::ApiUnavailable,
                "The Playit runtime has stopped."@,
                true,
            ),
        }
    }

    /// The error in words.
    pub open spec fn shown(self) -> Seq<char> {
        match self {
            RuntimeErrorView::Failure(ErrorArea::Secret, e) => "secret error: "@ + e.message,
            RuntimeErrorView::Failure(ErrorArea::Setup, e) => "runtime setup error: "@ + e.message,
            RuntimeErrorView::Failure(ErrorArea::Api, e) => "Playit API error: "@ + e.message,
            RuntimeErrorView::Failure(ErrorArea::InvalidState, e) => "invalid runtime state: "@
                + e.message,
            RuntimeErrorView::Io(failure) => "runtime I/O error: "@ + failure.message,
            RuntimeErrorView::Stopped => "the Playit runtime has stopped"@,
        }
    }
}

impl RuntimeError {
    /// An error about the agent secret.
    pub fn secret(code: ServiceErrorCode, message: String, retryable: bool) -> (r: Self)
        ensures
            r@ == RuntimeErrorView::Failure(
                ErrorArea::Secret,
                plain_error(code, message@, retryable),
            ),
    {
        RuntimeError::Secret { code, message, retryable, details: None }
    }

    /// A setup error without a specific code.
    pub fn setup(message: String, retryable: bool) -> (r: Self)
        ensures
            r@ == RuntimeErrorView::Failure(
                ErrorArea::Setup,
                plain_error(ServiceErrorCode::Internal, message@, retryable),
            ),
    {
        RuntimeError::setup_with_code(ServiceErrorCode::Internal, message, retryable)
    }

    /// A setup error with a specific code.
    pub fn setup_with_code(code: ServiceErrorCode, message: String, retryable: bool) -> (r: Self)
        ensures
            r@ == RuntimeErrorView::Failure(
                ErrorArea::Setup,
                plain_error(code, message@, retryable),
            ),
    {
        RuntimeError::Setup { code, message, retryable, details: None }
    }

    /// An error that the Playit API answered or that kept it from answering.
    pub fn api(code: ServiceErrorCode, message: String, retryable: bool) -> (r: Self)
        ensures
            r@ == RuntimeErrorView::Failure(ErrorArea::Api, plain_error(code, message@, retryable)),
    {
        RuntimeError::Api { code, message, retryable, details: None }
    }

    /// A request that does not fit the runtime's state.
    pub fn invalid(code: ServiceErrorCode, message: String, retryable: bool) -> (r: Self)
        ensures
            r@ == RuntimeErrorView::Failure(
                ErrorArea::InvalidState,
                plain_error(code, message@, retryable),
            ),
    {
        RuntimeError::InvalidState { code, message, retryable, details: None }
    }

    /// The runtime no longer runs.
    pub fn stopped() -> (r: Self)
        ensures
            r == RuntimeError::Stopped,
    {
        RuntimeError::Stopped
    }

    /// The error that a service client sees.
    pub fn as_service_error(&self) -> (r: ServiceError)
        ensures
            r@ == self@.service_error(),
    {
        match self {
            RuntimeError::Secret { code, message, retryable, details }
            | RuntimeError::Setup { code, message, retryable, details }
            | RuntimeError::Api { code, message, retryable, details }
            | RuntimeError::InvalidState { code, message, retryable, details } => ServiceError {
                code: *code,
                message: message.clone(),
                retryable: *retryable,
                details: copy_opt(details),
            },
            RuntimeError::Io(failure) => ServiceError {
                code: ServiceErrorCode::Internal,
                message: failure.message.clone(),
                retryable: true,
                details: None,
            },
            RuntimeError::Stopped => ServiceError {
                code: ServiceErrorCode::ApiUnavailable,
                message: owned("The Playit runtime has stopped."),
                retryable: true,
                details: None,
            },
        }
    }

    /// The error in words.
    pub fn to_text(&self) -> (r: String)
        ensures
            r@ == self@.shown(),
    {
        match self {
            RuntimeError::Secret { message, .. } => join2("secret error: ", message.as_str()),
            RuntimeError::Setup { message, .. } => join2(
                "runtime setup error: ",
                message.as_str(),
            ),
            RuntimeError::Api { message, .. } => join2("Playit API error: ", message.as_str()),
            RuntimeError::InvalidState { message, .. } => join2(
                "invalid runtime state: ",
                message.as_str(),
            ),
            RuntimeError::Io(failure) => join2("runtime I/O error: ", failure.message.as_str()),
            RuntimeError::Stopped => owned("the Playit runtime has stopped"),
        }
    }
}

/// A client sees of a failure just what it holds: its own code, message and details, and whether
/// it can be tried again. A failed operation of the system and the end of the runtime can be.
pub proof fn clients_see_the_error_itself(error: RuntimeError)
    ensures
        error matches RuntimeError::Secret { code, message, retryable, details }
            ==> error@.service_error() == (ServiceErrorView {
            code,
            message: message@,
            retryable,
            details: opt_text(details),
        }) && error@.shown() == "secret error: "@ + message@,
        error matches RuntimeError::Setup { code, message, retryable, details }
            ==> error@.service_error() == (ServiceErrorView {
            code,
            message: message@,
            retryable,
            details: opt_text(details),
        }) && error@.shown() == "runtime setup error: "@ + message@,
        error matches RuntimeError::Api { code, message, retryable, details }
            ==> error@.service_error() == (ServiceErrorView {
            code,
            message: message@,
            retryable,
            details: opt_text(details),
        }) && error@.shown() == "Playit API error: "@ + message@,
        error matches RuntimeError::InvalidState { code, message, retryable, details }
            ==> error@.service_error() == (ServiceErrorView {
            code,
            message: message@,
            retryable,
            details: opt_text(details),
        }) && error@.shown() == "invalid runtime state: "@ + message@,
        error matches RuntimeError::Io(failure) ==> error@.service_error() == (ServiceErrorView {
            code: ServiceErrorCode::Internal,
            message: failure.message@,
            retryable: true,
            details: None,
        }) && error@.shown() == "runtime I/O error: "@ + failure.message@,
        error is Stopped ==> error@.service_error() == (ServiceErrorView {
            code: ServiceErrorCode::ApiUnavailable,
            message: "The Playit runtime has stopped."@,
            retryable: true,
            details: None,
        }) && error@.shown() == "the Playit runtime has stopped"@,
{
}

/// A plain error holds what it is made of, and no details.
pub proof fn plain_errors_hold_their_parts(
    code: ServiceErrorCode,
    message: Seq<char>,
    retryable: bool,
)
    ensures
        plain_error(code, message, retryable).code == code,
        plain_error(code, message, retryable).message == message,
        plain_error(code, message, retryable).retryable == retryable,
        plain_error(code, message, retryable).details is None,
{
}

} // verus!
