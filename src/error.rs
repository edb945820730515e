//! The failures that a request can end in.
use vstd::prelude::*;

verus! {

/// Failure of the HTTP transport, or of decoding a response body.
#[verifier::external_type_specification]
#[verifier::external_body]
pub struct ExHttpError(reqwest::Error);

/// Failure to parse or join a URL.
#[verifier::external_type_specification]
#[verifier::external_body]
pub struct ExParseError(url::ParseError);

/// What a request against the API can fail with.
#[derive(Debug)]
pub enum KromerError {
    /// The server answered with an error object: its code and its message.
    Krist { error: String, message: String },
    /// The request could not be sent, or its answer not read.
    Http(reqwest::Error),
    /// The base URL, or a path joined onto it, is not a valid URL.
    Url(url::ParseError),
}

} // verus!
