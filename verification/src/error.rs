//! The ways an operation of the gateway can fail.

use crate::status::{status_prefix, status_text, HttpStatus};
use vstd::prelude::*;

verus! {

/// The kinds of failure, without what they carry.
#[derive(Clone, Copy, Debug, PartialEq, Eq, Structural)]
pub enum ErrorKind {
    NotFound,
    SpawnError,
    ProcessError,
    ConnectError,
    RemoteError,
    DecodeError,
}

/// A failed operation: the kind of failure and what the failure carries.
#[derive(Clone, Debug, PartialEq, Eq)]
pub enum GatewayError {
    /// The script that the operation runs is not at its location.
    NotFound { location: String },
    /// The operating system did not start the subprocess.
    SpawnError { reason: String },
    /// The subprocess ran and reported failure; carries its standard error.
    ProcessError { stderr: String },
    /// No connection to the chat service could be made.
    ConnectError { reason: String },
    /// The chat service answered with a status other than success.
    RemoteError { status: HttpStatus },
    /// The body of the answer did not have the expected shape.
    DecodeError { reason: String },
}

/// A `GatewayError` with its texts as character sequences and its status as a number.
pub enum GatewayErrorView {
    NotFound { location: Seq<char> },
    SpawnError { reason: Seq<char> },
    ProcessError { stderr: Seq<char> },
    ConnectError { reason: Seq<char> },
    RemoteError { status: u16 },
    DecodeError { reason: Seq<char> },
}

impl View for GatewayError {
    type V = GatewayErrorView;

    open spec fn view(&self) -> GatewayErrorView {
        match self {
            GatewayError::NotFound { location } => GatewayErrorView::NotFound {
                location: location@,
            },
            GatewayError::SpawnError { reason } => GatewayErrorView::SpawnError { reason: reason@ },
            GatewayError::ProcessError { stderr } => GatewayErrorView::ProcessError {
                stderr: stderr@,
            },
            GatewayError::ConnectError { reason } => GatewayErrorView::ConnectError {
                reason: reason@,
            },
            GatewayError::RemoteError { status } => GatewayErrorView::RemoteError {
                status: status@,
            },
            GatewayError::DecodeError { reason } => GatewayErrorView::DecodeError {
                reason: reason@,
            },
        }
    }
}

/// The view of a result: the view of what it holds.
pub open spec fn result_view<T: View, E: View>(r: Result<T, E>) -> Result<T::V, E::V> {
    match r {
        Ok(value) => Ok(value@),
        Err(error) => Err(error@),
    }
}

/// The kind of the failure `e`.
pub open spec fn kind_of(e: GatewayErrorView) -> ErrorKind {
    match e {
        GatewayErrorView::NotFound { .. } => ErrorKind::NotFound,
        GatewayErrorView::SpawnError { .. } => ErrorKind::SpawnError,
        GatewayErrorView::ProcessError { .. } => ErrorKind::ProcessError,
        GatewayErrorView::ConnectError { .. } => ErrorKind::ConnectError,
        GatewayErrorView::RemoteError { .. } => ErrorKind::RemoteError,
        GatewayErrorView::DecodeError { .. } => ErrorKind::DecodeError,
    }
}

/// The text that the failure `e` shows to the caller: what it carries, a
/// status as its number and reason phrase.
pub open spec fn message_of(e: GatewayErrorView) -> Seq<char> {
    match e {
        GatewayErrorView::NotFound { location } => location,
        GatewayErrorView::SpawnError { reason } => reason,
        GatewayErrorView::ProcessError { stderr } => stderr,
        GatewayErrorView::ConnectError { reason } => reason,
        GatewayErrorView::RemoteError { status } => status_text(status),
        GatewayErrorView::DecodeError { reason } => reason,
    }
}

impl GatewayError {
    /// The kind of this failure.
    pub fn kind(&self) -> (kind: ErrorKind)
        ensures
            kind == kind_of(self@),
    {
        match self {
            GatewayError::NotFound { .. } => ErrorKind::NotFound,
            GatewayError::SpawnError { .. } => ErrorKind::SpawnError,
            GatewayError::ProcessError { .. } => ErrorKind::ProcessError,
            GatewayError::ConnectError { .. } => ErrorKind::ConnectError,
            GatewayError::RemoteError { .. } => ErrorKind::RemoteError,
            GatewayError::DecodeError { .. } => ErrorKind::DecodeError,
        }
    }

    /// The text that this failure shows to the caller. That of a
    /// `RemoteError` begins with the number of its status.
    pub fn message(&self) -> (text: String)
        ensures
            text@ == message_of(self@),
            self@ matches GatewayErrorView::RemoteError { status } ==> status_prefix(
                status,
            ).is_prefix_of(text@),
    {
        match self {
            GatewayError::NotFound { location } => location.clone(),
            GatewayError::SpawnError { reason } => reason.clone(),
            GatewayError::ProcessError { stderr } => stderr.clone(),
            GatewayError::ConnectError { reason } => reason.clone(),
            GatewayError::RemoteError { status } => status.line(),
            GatewayError::DecodeError { reason } => reason.clone(),
        }
    }
}

} // verus!
