//! How failures of the server and of its streams are reported.
use vstd::prelude::*;

use crate::credentials::PROVIDER_TYPE;
use crate::error::{ErrorDetails, ProviderError};
use crate::status::StatusCode;

#[allow(unused_imports)]
use crate::error::ErrorView;

verus! {

/// The status numbers that blame the request: it was malformed, carried no or
/// not enough authorization, or came too soon.
pub open spec fn blames_request(code: int) -> bool {
    code == 400 || code == 401 || code == 403 || code == 429
}

/// The error for a reply that reports no success.
pub open spec fn refused_reply(status: StatusCode, response_body: Seq<char>) -> ErrorView {
    if blames_request(status@) {
        ErrorView::InferenceClient {
            message: response_body,
            status_code: Some(status),
            provider_type: PROVIDER_TYPE@,
            raw_request: None,
            raw_response: None,
        }
    } else {
        ErrorView::InferenceServer {
            message: response_body,
            provider_type: PROVIDER_TYPE@,
            raw_request: None,
            raw_response: None,
        }
    }
}

/// The error for a reply that reports no success, given what the reply says.
pub fn handle_ollama_error(response_code: StatusCode, response_body: &str) -> (error: ProviderError)
    ensures
        error@ == refused_reply(response_code, response_body@),
{
    match response_code.as_u16() {
        400 | 401 | 403 | 429 => ProviderError::new(
            ErrorDetails::InferenceClient {
                message: response_body.to_string(),
                status_code: Some(response_code),
                provider_type: PROVIDER_TYPE.to_string(),
                raw_request: None,
                raw_response: None,
            },
        ),
        _ => ProviderError::new(
            ErrorDetails::InferenceServer {
                message: response_body.to_string(),
                provider_type: PROVIDER_TYPE.to_string(),
                raw_request: None,
                raw_response: None,
            },
        ),
    }
}

/// A failure of an event stream, in its own words.
#[derive(Debug)]
pub enum StreamFailure {
    /// The server answered with a status that starts no stream.
    InvalidStatusCode {
        message: String,
        /// What the reply says, or why it could not be read.
        body: Result<String, String>,
    },
    /// Any other failure.
    Other { message: String },
}

/// The error for a failure of an event stream. The body of a reply is kept, if
/// there is one that could be read.
pub open spec fn stream_error(provider_type: Seq<char>, failure: StreamFailure) -> ErrorView {
    match failure {
        StreamFailure::InvalidStatusCode { message, body } => ErrorView::InferenceServer {
            message: message@,
            provider_type,
            raw_request: None,
            raw_response: match body {
                Ok(text) => Some(text@),
                Err(_) => None,
            },
        },
        StreamFailure::Other { message } => ErrorView::InferenceServer {
            message: message@,
            provider_type,
            raw_request: None,
            raw_response: None,
        },
    }
}

/// The error for a failure of an event stream.
pub fn convert_stream_error(provider_type: String, failure: StreamFailure) -> (error: ProviderError)
    ensures
        error@ == stream_error(provider_type@, failure),
{
    let (message, raw_response): (String, Option<String>) = match failure {
        StreamFailure::InvalidStatusCode { message, body } => (message, body.ok()),
        StreamFailure::Other { message } => (message, None),
    };
    ProviderError::new(
        ErrorDetails::InferenceServer { message, provider_type, raw_request: None, raw_response },
    )
}

} // verus!
