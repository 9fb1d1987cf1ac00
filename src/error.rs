use vstd::prelude::*;

verus! {

/// Why a request, or the token exchange built on one, produced no value.
#[derive(Debug)]
pub enum RequestError {
    /// The target URL could not be parsed as a URI.
    InvalidUrl,
    /// The exchange failed on the way: connect, TLS, or I/O.
    NetworkError,
    /// The response body is not complete, valid JSON.
    DecodeError,
    /// The authorization server answered, but with no string `access_token`;
    /// the answer is kept for diagnosis.
    AuthResponseMalformed(serde_json::Value),
}

} // verus!
