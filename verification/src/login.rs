//! Opening a session: the login call and the judgement of its answer.

use crate::error::{Error, ErrorView};
use crate::model;
use crate::wire::{LoginCall, LoginRequest, LoginResult};
use vstd::prelude::*;

verus! {

/// Mathematical value of what [`login_outcome`] returns.
pub open spec fn token_view(outcome: Result<String, Error>) -> Result<Seq<char>, ErrorView> {
    match outcome {
        Ok(tid) => Ok(tid@),
        Err(error) => Err(error@),
    }
}

/// Builds the address of the login call on `host`.
pub fn login_url(host: &str) -> (url: String)
    ensures
        url@ == model::login_url(host@),
{
    let mut url = String::from_str("https://");
    url.append(host);
    url.append("/data/login.json");
    url
}

/// Builds the login call for the given account on `host`.
pub fn login_call(host: &str, username: &str, password: &str) -> (call: LoginCall)
    ensures
        call@ == model::login_call(host@, username@, password@),
{
    LoginCall {
        url: login_url(host),
        body: LoginRequest {
            username: String::from_str(username),
            password: String::from_str(password),
            operation: String::from_str("write"),
        },
    }
}

/// Judges the appliance's answer to the login call.
///
/// The session token is returned exactly as the appliance sent it, and only
/// where the answer reports success and carries one. An answer that reports
/// failure is a rejection whatever else it holds; one that reports success
/// without a token is a failure of its own kind, never a panic.
pub fn login_outcome(reply: LoginResult) -> (outcome: Result<String, Error>)
    ensures
        token_view(outcome) == model::login_outcome(reply@),
        outcome is Ok <==> reply.success && reply.data._tid_ is Some,
        outcome matches Ok(tid) ==> Some(tid) == reply.data._tid_,
{
    if !reply.success {
        return Err(Error::LoginRejected);
    }
    match reply.data._tid_ {
        Some(tid) => Ok(tid),
        None => Err(Error::LoginWithoutToken),
    }
}

} // verus!
