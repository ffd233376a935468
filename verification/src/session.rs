//! The run as a state machine: one login, then each file read and sent in
//! turn, stopping at the first failure.
//!
//! The machine never performs anything itself. It hands out one [`Action`]
//! at a time; the caller carries it out and reports what came of it as an
//! [`Event`], which yields the next action. At most one request is
//! therefore ever pending.

use crate::error::{Error, ErrorView};
use crate::login::{login_call, login_outcome};
use crate::model;
use crate::upload::{upload_outcome, upload_request};
use crate::wire::{
    Artifact, LoginCall, LoginCallView, LoginResult, LoginResultView, UploadCertResult,
    UploadRequest, UploadRequestView,
};
use vstd::prelude::*;

verus! {

/// The sentence that confirms a run in which both files were accepted.
pub const CONFIRMATION: &'static str = "Cert updated";

/// The account on the appliance that the run is made for. It holds the
/// password, so it cannot be printed for debugging.
#[derive(Clone, PartialEq, Eq)]
pub struct Credentials {
    pub host: String,
    pub username: String,
    pub password: String,
}

/// Mathematical value of [`Credentials`].
pub struct CredentialsView {
    pub host: Seq<char>,
    pub username: Seq<char>,
    pub password: Seq<char>,
}

impl View for Credentials {
    type V = CredentialsView;

    open spec fn view(&self) -> CredentialsView {
        CredentialsView { host: self.host@, username: self.username@, password: self.password@ }
    }
}

/// Where a run stands: what was last asked of the caller.
#[derive(Clone, Debug, PartialEq, Eq)]
pub enum Session {
    /// The login call is pending.
    LoggingIn { host: String },
    /// The contents of a file are awaited.
    Reading { host: String, tid: String, artifact: Artifact },
    /// The upload of a file is pending.
    Uploading { host: String, tid: String, artifact: Artifact },
    /// The run is over, well or badly.
    Closed,
}

/// Mathematical value of a [`Session`].
pub enum SessionView {
    LoggingIn { host: Seq<char> },
    Reading { host: Seq<char>, tid: Seq<char>, artifact: Artifact },
    Uploading { host: Seq<char>, tid: Seq<char>, artifact: Artifact },
    Closed,
}

impl View for Session {
    type V = SessionView;

    open spec fn view(&self) -> SessionView {
        match *self {
            Session::LoggingIn { host } => SessionView::LoggingIn { host: host@ },
            Session::Reading { host, tid, artifact } => SessionView::Reading {
                host: host@,
                tid: tid@,
                artifact,
            },
            Session::Uploading { host, tid, artifact } => SessionView::Uploading {
                host: host@,
                tid: tid@,
                artifact,
            },
            Session::Closed => SessionView::Closed,
        }
    }
}

/// What became of the action that was pending.
#[derive(Clone, Debug, PartialEq, Eq)]
pub enum Event {
    /// The appliance answered the login call.
    LoginReplied(LoginResult),
    /// The file was read in full.
    FileRead(Vec<u8>),
    /// The appliance answered the upload.
    UploadReplied(UploadCertResult),
    /// The action could not be completed; the text says why.
    Failed(String),
}

/// Mathematical value of an [`Event`].
pub enum EventView {
    LoginReplied(LoginResultView),
    FileRead(Seq<u8>),
    UploadReplied(UploadCertResult),
    Failed(Seq<char>),
}

impl View for Event {
    type V = EventView;

    open spec fn view(&self) -> EventView {
        match *self {
            Event::LoginReplied(reply) => EventView::LoginReplied(reply@),
            Event::FileRead(content) => EventView::FileRead(content@),
            Event::UploadReplied(reply) => EventView::UploadReplied(reply),
            Event::Failed(detail) => EventView::Failed(detail@),
        }
    }
}

/// What the caller is to do next. The login call holds the password, so an
/// action cannot be printed for debugging.
#[derive(Clone, PartialEq, Eq)]
pub enum Action {
    /// Send the login call and report the answer.
    Login(LoginCall),
    /// Read the file in full and report its contents.
    Read(Artifact),
    /// Send the upload and report the answer.
    Upload(UploadRequest),
    /// Both files are in place: confirm and stop.
    Finish,
    /// Report the failure and stop.
    Abort(Error),
}

/// Mathematical value of an [`Action`].
pub enum ActionView {
    Login(LoginCallView),
    Read(Artifact),
    Upload(UploadRequestView),
    Finish,
    Abort(ErrorView),
}

impl View for Action {
    type V = ActionView;

    open spec fn view(&self) -> ActionView {
        match *self {
            Action::Login(call) => ActionView::Login(call@),
            Action::Read(artifact) => ActionView::Read(artifact),
            Action::Upload(request) => ActionView::Upload(request@),
            Action::Finish => ActionView::Finish,
            Action::Abort(error) => ActionView::Abort(error@),
        }
    }
}

impl Session {
    /// Opens a run: the first thing to do is always to log in.
    pub fn begin(credentials: &Credentials) -> (start: (Session, Action))
        ensures
            start.0@ == model::begin(credentials@).0,
            start.1@ == model::begin(credentials@).1,
    {
        let call = login_call(
            credentials.host.as_str(),
            credentials.username.as_str(),
            credentials.password.as_str(),
        );
        (Session::LoggingIn { host: credentials.host.clone() }, Action::Login(call))
    }

    /// Takes the run one step further: given what came of the pending
    /// action, says where the run now stands and what to do next.
    ///
    /// A failure of any kind closes the session, and so does an event that
    /// does not answer the pending action. A closed session answers every
    /// event with the same refusal.
    pub fn step(self, event: Event) -> (next: (Session, Action))
        ensures
            next.0@ == model::step(self@, event@).0,
            next.1@ == model::step(self@, event@).1,
    {
        match self {
            Session::LoggingIn { host } => match event {
                Event::LoginReplied(reply) => match login_outcome(reply) {
                    Ok(tid) => (
                        Session::Reading { host, tid, artifact: Artifact::Certificate },
                        Action::Read(Artifact::Certificate),
                    ),
                    Err(error) => (Session::Closed, Action::Abort(error)),
                },
                Event::Failed(detail) => (
                    Session::Closed,
                    Action::Abort(Error::LoginUnanswered { detail }),
                ),
                _ => (Session::Closed, Action::Abort(Error::OutOfTurn)),
            },
            Session::Reading { host, tid, artifact } => match event {
                Event::FileRead(content) => {
                    let request = upload_request(
                        host.as_str(),
                        tid.as_str(),
                        artifact.endpoint(),
                        content,
                    );
                    (Session::Uploading { host, tid, artifact }, Action::Upload(request))
                },
                Event::Failed(detail) => (
                    Session::Closed,
                    Action::Abort(Error::FileUnreadable { detail }),
                ),
                _ => (Session::Closed, Action::Abort(Error::OutOfTurn)),
            },
            Session::Uploading { host, tid, artifact } => match event {
                Event::UploadReplied(reply) => match upload_outcome(reply) {
                    Ok(()) => match artifact.following() {
                        Some(artifact) => (
                            Session::Reading { host, tid, artifact },
                            Action::Read(artifact),
                        ),
                        None => (Session::Closed, Action::Finish),
                    },
                    Err(error) => (Session::Closed, Action::Abort(error)),
                },
                Event::Failed(detail) => (
                    Session::Closed,
                    Action::Abort(Error::UploadUnanswered { detail }),
                ),
                _ => (Session::Closed, Action::Abort(Error::OutOfTurn)),
            },
            Session::Closed => (Session::Closed, Action::Abort(Error::OutOfTurn)),
        }
    }

    /// Whether the run is over.
    pub fn is_closed(&self) -> (closed: bool)
        ensures
            closed <==> self@ is Closed,
    {
        match self {
            Session::Closed => true,
            _ => false,
        }
    }
}

} // verus!
