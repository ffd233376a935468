//! What can end a run before the new key is in place.
//!
//! Every failure is final: the caller reports [`Error::message`] and stops.

use vstd::prelude::*;

verus! {

/// The family a failure belongs to.
#[derive(Clone, Copy, Debug, PartialEq, Eq, Structural)]
pub enum ErrorKind {
    /// A certificate or key file could not be read.
    Io,
    /// No session token was obtained.
    Authentication,
    /// The appliance did not accept an uploaded file.
    Upload,
    /// The caller reported something that does not answer the pending action.
    Misuse,
}

/// Why a run was abandoned.
#[derive(Clone, Debug, PartialEq, Eq)]
pub enum Error {
    /// The file that was asked for could not be opened or read.
    FileUnreadable { detail: String },
    /// The login call did not produce a usable answer: the connection
    /// failed, or the body was not the expected JSON.
    LoginUnanswered { detail: String },
    /// The appliance answered the login call with `success: false`.
    LoginRejected,
    /// The appliance claimed success but sent no session token.
    LoginWithoutToken,
    /// An upload call did not produce a usable answer.
    UploadUnanswered { detail: String },
    /// The appliance answered an upload with `success: false`.
    UploadRejected,
    /// The reported event does not answer the action that was pending.
    OutOfTurn,
}

/// Mathematical value of an [`Error`].
pub enum ErrorView {
    FileUnreadable { detail: Seq<char> },
    LoginUnanswered { detail: Seq<char> },
    LoginRejected,
    LoginWithoutToken,
    UploadUnanswered { detail: Seq<char> },
    UploadRejected,
    OutOfTurn,
}

impl View for Error {
    type V = ErrorView;

    open spec fn view(&self) -> ErrorView {
        match *self {
            Error::FileUnreadable { detail } => ErrorView::FileUnreadable { detail: detail@ },
            Error::LoginUnanswered { detail } => ErrorView::LoginUnanswered { detail: detail@ },
            Error::LoginRejected => ErrorView::LoginRejected,
            Error::LoginWithoutToken => ErrorView::LoginWithoutToken,
            Error::UploadUnanswered { detail } => ErrorView::UploadUnanswered { detail: detail@ },
            Error::UploadRejected => ErrorView::UploadRejected,
            Error::OutOfTurn => ErrorView::OutOfTurn,
        }
    }
}

impl ErrorView {
    /// The family of this failure.
    pub open spec fn kind(self) -> ErrorKind {
        match self {
            ErrorView::FileUnreadable { .. } => ErrorKind::Io,
            ErrorView::LoginUnanswered { .. } => ErrorKind::Authentication,
            ErrorView::LoginRejected => ErrorKind::Authentication,
            ErrorView::LoginWithoutToken => ErrorKind::Authentication,
            ErrorView::UploadUnanswered { .. } => ErrorKind::Upload,
            ErrorView::UploadRejected => ErrorKind::Upload,
            ErrorView::OutOfTurn => ErrorKind::Misuse,
        }
    }

    /// The text shown to the operator. A failure that the outside world
    /// described is reported in its own words; a refusal by the appliance
    /// gets a fixed sentence.
    pub open spec fn message(self) -> Seq<char> {
        match self {
            ErrorView::FileUnreadable { detail } => detail,
            ErrorView::LoginUnanswered { detail } => detail,
            ErrorView::LoginRejected => "Failed to login"@,
            ErrorView::LoginWithoutToken => "Failed to login: no session token"@,
            ErrorView::UploadUnanswered { detail } => detail,
            ErrorView::UploadRejected => "Failed to upload cert"@,
            ErrorView::OutOfTurn => "Event does not answer the pending action"@,
        }
    }
}

impl Error {
    /// Classifies the failure.
    pub fn kind(&self) -> (kind: ErrorKind)
        ensures
            kind == self@.kind(),
    {
        match self {
            Error::FileUnreadable { .. } => ErrorKind::Io,
            Error::LoginUnanswered { .. } => ErrorKind::Authentication,
            Error::LoginRejected => ErrorKind::Authentication,
            Error::LoginWithoutToken => ErrorKind::Authentication,
            Error::UploadUnanswered { .. } => ErrorKind::Upload,
            Error::UploadRejected => ErrorKind::Upload,
            Error::OutOfTurn => ErrorKind::Misuse,
        }
    }

    /// Renders the failure for the operator.
    pub fn message(&self) -> (text: String)
        ensures
            text@ == self@.message(),
    {
        match self {
            Error::FileUnreadable { detail } => detail.clone(),
            Error::LoginUnanswered { detail } => detail.clone(),
            Error::LoginRejected => String::from_str("Failed to login"),
            Error::LoginWithoutToken => String::from_str("Failed to login: no session token"),
            Error::UploadUnanswered { detail } => detail.clone(),
            Error::UploadRejected => String::from_str("Failed to upload cert"),
            Error::OutOfTurn => String::from_str("Event does not answer the pending action"),
        }
    }
}

} // verus!
