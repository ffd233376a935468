//! Rotating the HTTPS certificate of a web-managed appliance.
//!
//! The appliance exposes a small REST convention over HTTPS: one login call
//! that yields a session token, and two multipart uploads (certificate, then
//! private key) that must present that token. This library holds every
//! decision of that exchange as verified code on plain values: which request
//! to issue next, what it contains, and how each answer is judged. Network
//! and file access are left to the caller, which performs each [`Action`]
//! and hands the result back as an [`Event`].

pub mod error;
pub mod login;
pub mod model;
pub mod run;
pub mod session;
pub mod text;
pub mod upload;
pub mod wire;

pub use error::{Error, ErrorKind, ErrorView};
pub use login::{login_call, login_outcome, login_url};
pub use run::replay;
pub use session::{Action, Credentials, Event, Session, CONFIRMATION};
pub use text::{occurs_at, occurs_in};
pub use upload::{upload_outcome, upload_request, upload_url};
pub use wire::{
    Artifact, LoginCall, LoginRequest, LoginResult, LoginResultData, UploadCertResult,
    UploadRequest,
};
