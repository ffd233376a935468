//! Sending one file: the upload call and the judgement of its answer.

use crate::error::{Error, ErrorView};
use crate::model;
use crate::text::occurs_in;
use crate::wire::{Artifact, UploadCertResult, UploadRequest};
use vstd::prelude::*;

verus! {

/// Mathematical value of what [`upload_outcome`] returns.
pub open spec fn verdict_view(outcome: Result<(), Error>) -> Result<(), ErrorView> {
    match outcome {
        Ok(()) => Ok(()),
        Err(error) => Err(error@),
    }
}

impl Artifact {
    /// Name of the endpoint that loads this file.
    pub fn endpoint(self) -> (name: &'static str)
        ensures
            name@ == model::endpoint(self),
    {
        match self {
            Artifact::Certificate => "httpsLoadCertificate.json",
            Artifact::Key => "httpsLoadKey.json",
        }
    }

    /// The file that is sent after this one: the key follows the
    /// certificate, and nothing follows the key.
    pub fn following(self) -> (next: Option<Artifact>)
        ensures
            next == model::following(self),
    {
        match self {
            Artifact::Certificate => Some(Artifact::Key),
            Artifact::Key => None,
        }
    }
}

/// Builds the address of an upload to the endpoint `method` on `host`,
/// within the session `tid`.
pub fn upload_url(host: &str, method: &str, tid: &str) -> (url: String)
    ensures
        url@ == model::upload_url(host@, method@, tid@),
        occurs_in(model::privilege_parameter(), url@),
        occurs_in(model::token_parameter(tid@), url@),
{
    let mut url = String::from_str("https://");
    url.append(host);
    url.append("/data/");
    url.append(method);
    url.append("?");
    url.append("usrLvl=3");
    url.append("&");
    let mut token_parameter = String::from_str("_tid_=");
    token_parameter.append(tid);
    url.append(token_parameter.as_str());
    proof {
        model::lemma_upload_url_parameters(host@, method@, tid@);
    }
    url
}

/// Builds the upload of `cert_data` to the endpoint `method` on `host`,
/// within the session `tid`. The bytes are forwarded untouched.
pub fn upload_request(host: &str, tid: &str, method: &str, cert_data: Vec<u8>) -> (request:
    UploadRequest)
    ensures
        request@ == model::upload_request(host@, tid@, method@, cert_data@),
{
    UploadRequest {
        url: upload_url(host, method, tid),
        part_name: String::from_str("file"),
        file_name: String::from_str("cert.pem"),
        mime: String::from_str("application/x-x509-ca-cert"),
        content: cert_data,
    }
}

/// Judges the appliance's answer to an upload.
pub fn upload_outcome(reply: UploadCertResult) -> (outcome: Result<(), Error>)
    ensures
        verdict_view(outcome) == model::upload_outcome(reply),
        outcome is Ok <==> reply.success,
{
    if reply.success {
        Ok(())
    } else {
        Err(Error::UploadRejected)
    }
}

} // verus!
