//! Plain response shapes.

use vstd::prelude::*;
use vstd::string::StringExecFns;

verus! {

/// An error as code and message.
#[derive(Debug)]
pub struct ErrorResponse {
    pub error: String,
    pub message: String,
}

impl ErrorResponse {
    /// The error that stands for any failure inside the server.
    pub fn internal(message: String) -> (r: ErrorResponse)
        ensures
            r.error@ == "INTERNAL_SERVER_ERROR"@,
            r.message@ == message@,
    {
        ErrorResponse { error: String::from_str("INTERNAL_SERVER_ERROR"), message }
    }
}

/// One file in the repository: where it lies, and its digest.
#[derive(Debug)]
pub struct MavenDataResponse {
    pub url: String,
    pub sha256: String,
}

impl Clone for MavenDataResponse {
    fn clone(&self) -> (r: Self)
        ensures
            r.url@ == self.url@,
            r.sha256@ == self.sha256@,
    {
        MavenDataResponse { url: self.url.clone(), sha256: self.sha256.clone() }
    }
}

/// The files of one bundle.
#[derive(Debug)]
pub struct OneconfigDataResponse {
    pub release: MavenDataResponse,
    pub snapshot: MavenDataResponse,
    pub loader: MavenDataResponse,
}

} // verus!
