//! The errors that the provider reports.
use vstd::prelude::*;

use crate::status::StatusCode;

verus! {

/// What went wrong.
#[derive(Debug, PartialEq, Eq)]
pub enum ErrorDetails {
    /// A configuration value that the provider cannot work with.
    Config { message: String },
    /// A request named an API key that was not supplied with it.
    ApiKeyMissing { provider_name: String },
    /// A value could not be written as JSON.
    Serialization { message: String },
    /// A message holds content that the provider cannot send.
    InvalidMessage { message: String },
    /// No endpoint can be derived from the configured base URL.
    InvalidBaseUrl { message: String },
    /// The request itself was at fault, or could not be sent.
    InferenceClient {
        message: String,
        status_code: Option<StatusCode>,
        provider_type: String,
        raw_request: Option<String>,
        raw_response: Option<String>,
    },
    /// The server failed, or sent a reply that cannot be used.
    InferenceServer {
        message: String,
        provider_type: String,
        raw_request: Option<String>,
        raw_response: Option<String>,
    },
    /// The provider offers no batch inference.
    UnsupportedModelProviderForBatchInference { provider_type: String },
}

/// An error, by its details.
#[derive(Debug, PartialEq, Eq)]
pub struct ProviderError {
    pub details: ErrorDetails,
}

/// The mathematical model of an error: its kind, with every string as a
/// sequence of characters.
pub enum ErrorView {
    Config { message: Seq<char> },
    ApiKeyMissing { provider_name: Seq<char> },
    Serialization { message: Seq<char> },
    InvalidMessage { message: Seq<char> },
    InvalidBaseUrl { message: Seq<char> },
    InferenceClient {
        message: Seq<char>,
        status_code: Option<StatusCode>,
        provider_type: Seq<char>,
        raw_request: Option<Seq<char>>,
        raw_response: Option<Seq<char>>,
    },
    InferenceServer {
        message: Seq<char>,
        provider_type: Seq<char>,
        raw_request: Option<Seq<char>>,
        raw_response: Option<Seq<char>>,
    },
    UnsupportedModelProviderForBatchInference { provider_type: Seq<char> },
}

/// The characters of an optional string.
pub open spec fn opt_text(text: Option<String>) -> Option<Seq<char>> {
    match text {
        Some(t) => Some(t@),
        None => None,
    }
}

impl View for ErrorDetails {
    type V = ErrorView;

    open spec fn view(&self) -> ErrorView {
        match *self {
            ErrorDetails::Config { message } => ErrorView::Config { message: message@ },
            ErrorDetails::ApiKeyMissing { provider_name } => ErrorView::ApiKeyMissing {
                provider_name: provider_name@,
            },
            ErrorDetails::Serialization { message } => ErrorView::Serialization {
                message: message@,
            },
            ErrorDetails::InvalidMessage { message } => ErrorView::InvalidMessage {
                message: message@,
            },
            ErrorDetails::InvalidBaseUrl { message } => ErrorView::InvalidBaseUrl {
                message: message@,
            },
            ErrorDetails::InferenceClient {
                message,
                status_code,
                provider_type,
                raw_request,
                raw_response,
            } => ErrorView::InferenceClient {
                message: message@,
                status_code,
                provider_type: provider_type@,
                raw_request: opt_text(raw_request),
                raw_response: opt_text(raw_response),
            },
            ErrorDetails::InferenceServer { message, provider_type, raw_request, raw_response } =>
                ErrorView::InferenceServer {
                message: message@,
                provider_type: provider_type@,
                raw_request: opt_text(raw_request),
                raw_response: opt_text(raw_response),
            },
            ErrorDetails::UnsupportedModelProviderForBatchInference { provider_type } =>
                ErrorView::UnsupportedModelProviderForBatchInference {
                provider_type: provider_type@,
            },
        }
    }
}

impl View for ProviderError {
    type V = ErrorView;

    open spec fn view(&self) -> ErrorView {
        self.details@
    }
}

impl ProviderError {
    /// The error with the given details.
    pub fn new(details: ErrorDetails) -> (error: ProviderError)
        ensures
            error.details == details,
    {
        ProviderError { details }
    }

    /// Gives up the error for its details.
    pub fn get_owned_details(self) -> (details: ErrorDetails)
        ensures
            details == self.details,
    {
        self.details
    }
}

impl From<ErrorDetails> for ProviderError {
    fn from(details: ErrorDetails) -> (error: ProviderError) {
        ProviderError { details }
    }
}

impl vstd::std_specs::convert::FromSpecImpl<ErrorDetails> for ProviderError {
    open spec fn obeys_from_spec() -> bool {
        true
    }

    open spec fn from_spec(details: ErrorDetails) -> ProviderError {
        ProviderError { details }
    }
}

} // verus!
