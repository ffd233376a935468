//! What travels between this tool and the appliance, as plain values.
//!
//! The caller turns these into bytes on the wire and back; nothing here
//! touches the network.

use vstd::prelude::*;

verus! {

/// One of the two files that make up the appliance's HTTPS identity.
#[derive(Clone, Copy, Debug, PartialEq, Eq, Structural)]
pub enum Artifact {
    Certificate,
    Key,
}

/// Body of the login call. It holds the password, so it cannot be printed
/// for debugging.
#[derive(Clone, PartialEq, Eq)]
pub struct LoginRequest {
    pub username: String,
    pub password: String,
    pub operation: String,
}

/// Mathematical value of a [`LoginRequest`].
pub struct LoginRequestView {
    pub username: Seq<char>,
    pub password: Seq<char>,
    pub operation: Seq<char>,
}

impl View for LoginRequest {
    type V = LoginRequestView;

    open spec fn view(&self) -> LoginRequestView {
        LoginRequestView {
            username: self.username@,
            password: self.password@,
            operation: self.operation@,
        }
    }
}

/// The login call, ready to be sent: a POST of `body`, as JSON, to `url`.
#[derive(Clone, PartialEq, Eq)]
pub struct LoginCall {
    pub url: String,
    pub body: LoginRequest,
}

/// Mathematical value of a [`LoginCall`].
pub struct LoginCallView {
    pub url: Seq<char>,
    pub body: LoginRequestView,
}

impl View for LoginCall {
    type V = LoginCallView;

    open spec fn view(&self) -> LoginCallView {
        LoginCallView { url: self.url@, body: self.body@ }
    }
}

/// The `data` member of the appliance's answer to a login call.
#[derive(Clone, Debug, PartialEq, Eq)]
pub struct LoginResultData {
    /// The session token; `None` where the member is null or absent.
    pub _tid_: Option<String>,
}

/// The appliance's answer to a login call.
#[derive(Clone, Debug, PartialEq, Eq)]
pub struct LoginResult {
    pub data: LoginResultData,
    pub success: bool,
}

/// Mathematical value of a [`LoginResult`].
pub struct LoginResultView {
    pub success: bool,
    pub tid: Option<Seq<char>>,
}

impl View for LoginResult {
    type V = LoginResultView;

    open spec fn view(&self) -> LoginResultView {
        LoginResultView {
            success: self.success,
            tid: match self.data._tid_ {
                Some(tid) => Some(tid@),
                None => None,
            },
        }
    }
}

/// The appliance's answer to an upload.
#[derive(Clone, Copy, Debug, PartialEq, Eq, Structural)]
pub struct UploadCertResult {
    pub success: bool,
}

/// An upload, ready to be sent: a multipart POST to `url` with a single
/// file part.
#[derive(Clone, Debug, PartialEq, Eq)]
pub struct UploadRequest {
    pub url: String,
    /// Name of the form field that carries the file.
    pub part_name: String,
    /// File name announced for the part.
    pub file_name: String,
    /// Content type announced for the part.
    pub mime: String,
    /// The file, byte for byte.
    pub content: Vec<u8>,
}

/// Mathematical value of an [`UploadRequest`].
pub struct UploadRequestView {
    pub url: Seq<char>,
    pub part_name: Seq<char>,
    pub file_name: Seq<char>,
    pub mime: Seq<char>,
    pub content: Seq<u8>,
}

impl View for UploadRequest {
    type V = UploadRequestView;

    open spec fn view(&self) -> UploadRequestView {
        UploadRequestView {
            url: self.url@,
            part_name: self.part_name@,
            file_name: self.file_name@,
            mime: self.mime@,
            content: self.content@,
        }
    }
}

} // verus!
