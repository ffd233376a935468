//! The exchange with the appliance, stated mathematically.
//!
//! Each function here says what a request must look like or how an answer
//! is to be judged. The executable functions of this crate are proved to
//! compute exactly these.

use crate::error::ErrorView;
use crate::session::{ActionView, CredentialsView, EventView, SessionView};
use crate::text::{lemma_occurs_between, occurs_in};
use crate::wire::{
    Artifact, LoginCallView, LoginRequestView, LoginResultView, UploadCertResult,
    UploadRequestView,
};
use vstd::prelude::*;

verus! {

/// Address of the login call on `host`.
pub open spec fn login_url(host: Seq<char>) -> Seq<char> {
    "https://"@ + host + "/data/login.json"@
}

/// The login call for the given account. The operation is always `write`:
/// the session is opened in order to change the appliance.
pub open spec fn login_call(
    host: Seq<char>,
    username: Seq<char>,
    password: Seq<char>,
) -> LoginCallView {
    LoginCallView {
        url: login_url(host),
        body: LoginRequestView { username, password, operation: "write"@ },
    }
}

/// Judgement of a login answer: the token, exactly as sent, where the
/// appliance reports success and sends one; a failure otherwise.
pub open spec fn login_outcome(reply: LoginResultView) -> Result<Seq<char>, ErrorView> {
    if !reply.success {
        Err(ErrorView::LoginRejected)
    } else {
        match reply.tid {
            Some(tid) => Ok(tid),
            None => Err(ErrorView::LoginWithoutToken),
        }
    }
}

/// Name of the endpoint that loads the given file.
pub open spec fn endpoint(artifact: Artifact) -> Seq<char> {
    match artifact {
        Artifact::Certificate => "httpsLoadCertificate.json"@,
        Artifact::Key => "httpsLoadKey.json"@,
    }
}

/// The file that is sent after `artifact`, if any.
pub open spec fn following(artifact: Artifact) -> Option<Artifact> {
    match artifact {
        Artifact::Certificate => Some(Artifact::Key),
        Artifact::Key => None,
    }
}

/// The query parameter that asserts the caller's access tier.
pub open spec fn privilege_parameter() -> Seq<char> {
    "usrLvl=3"@
}

/// The query parameter that presents the session token.
pub open spec fn token_parameter(token: Seq<char>) -> Seq<char> {
    "_tid_="@ + token
}

/// Address of an upload to the endpoint `method` on `host`, within the
/// session `token`.
pub open spec fn upload_url(host: Seq<char>, method: Seq<char>, token: Seq<char>) -> Seq<char> {
    "https://"@ + host + "/data/"@ + method + "?"@ + privilege_parameter() + "&"@
        + token_parameter(token)
}

/// The upload of `content` to the endpoint `method`. The part is always
/// announced as a certificate file named `cert.pem`, whatever it holds: the
/// appliance expects it so for the key as well.
pub open spec fn upload_request(
    host: Seq<char>,
    token: Seq<char>,
    method: Seq<char>,
    content: Seq<u8>,
) -> UploadRequestView {
    UploadRequestView {
        url: upload_url(host, method, token),
        part_name: "file"@,
        file_name: "cert.pem"@,
        mime: "application/x-x509-ca-cert"@,
        content,
    }
}

/// Judgement of an upload answer.
pub open spec fn upload_outcome(reply: UploadCertResult) -> Result<(), ErrorView> {
    if reply.success {
        Ok(())
    } else {
        Err(ErrorView::UploadRejected)
    }
}

/// The opening of a run: the session awaits the answer to the login call,
/// which is the first action.
pub open spec fn begin(credentials: CredentialsView) -> (SessionView, ActionView) {
    (
        SessionView::LoggingIn { host: credentials.host },
        ActionView::Login(
            login_call(credentials.host, credentials.username, credentials.password),
        ),
    )
}

/// One step of a run: where the session stands after `event`, and what is
/// to be done next.
///
/// A good login answer leads to the certificate; a file that was read is
/// sent at once, under the token that the login returned; an accepted
/// upload leads to the next file, or to the end after the last. Anything
/// else closes the session with the matching failure.
pub open spec fn step(session: SessionView, event: EventView) -> (SessionView, ActionView) {
    match session {
        SessionView::LoggingIn { host } => match event {
            EventView::LoginReplied(reply) => match login_outcome(reply) {
                Ok(tid) => (
                    SessionView::Reading { host, tid, artifact: Artifact::Certificate },
                    ActionView::Read(Artifact::Certificate),
                ),
                Err(error) => (SessionView::Closed, ActionView::Abort(error)),
            },
            EventView::Failed(detail) => (
                SessionView::Closed,
                ActionView::Abort(ErrorView::LoginUnanswered { detail }),
            ),
            _ => (SessionView::Closed, ActionView::Abort(ErrorView::OutOfTurn)),
        },
        SessionView::Reading { host, tid, artifact } => match event {
            EventView::FileRead(content) => (
                SessionView::Uploading { host, tid, artifact },
                ActionView::Upload(upload_request(host, tid, endpoint(artifact), content)),
            ),
            EventView::Failed(detail) => (
                SessionView::Closed,
                ActionView::Abort(ErrorView::FileUnreadable { detail }),
            ),
            _ => (SessionView::Closed, ActionView::Abort(ErrorView::OutOfTurn)),
        },
        SessionView::Uploading { host, tid, artifact } => match event {
            EventView::UploadReplied(reply) => match upload_outcome(reply) {
                Ok(()) => match following(artifact) {
                    Some(next) => (
                        SessionView::Reading { host, tid, artifact: next },
                        ActionView::Read(next),
                    ),
                    None => (SessionView::Closed, ActionView::Finish),
                },
                Err(error) => (SessionView::Closed, ActionView::Abort(error)),
            },
            EventView::Failed(detail) => (
                SessionView::Closed,
                ActionView::Abort(ErrorView::UploadUnanswered { detail }),
            ),
            _ => (SessionView::Closed, ActionView::Abort(ErrorView::OutOfTurn)),
        },
        SessionView::Closed => (SessionView::Closed, ActionView::Abort(ErrorView::OutOfTurn)),
    }
}

/// Every upload address carries the access tier and the session token as
/// literal query parameters.
pub proof fn lemma_upload_url_parameters(host: Seq<char>, method: Seq<char>, token: Seq<char>)
    ensures
        occurs_in(privilege_parameter(), upload_url(host, method, token)),
        occurs_in(token_parameter(token), upload_url(host, method, token)),
{
    let url = upload_url(host, method, token);
    let path = "https://"@ + host + "/data/"@ + method + "?"@;
    assert(url =~= path + privilege_parameter() + ("&"@ + token_parameter(token)));
    lemma_occurs_between(path, privilege_parameter(), "&"@ + token_parameter(token));
    let front = path + privilege_parameter() + "&"@;
    assert(url =~= front + token_parameter(token) + Seq::<char>::empty());
    lemma_occurs_between(front, token_parameter(token), Seq::<char>::empty());
}

} // verus!
