//! The provider: how it is set up, and how one inference runs.
//!
//! An inference alternates between decisions of the provider and work of the
//! caller. Each stage holds what the caller needs for the work that is due, and
//! takes the outcome of that work; the next stage, or the end, comes back.
use core::time::Duration;
use serde_json::Value;
use url::Url;
use vstd::prelude::*;

use crate::credentials::{
    default_api_key_location, Credential, CredentialLocation, InferenceCredentials,
    OllamaCredentials, PROVIDER_TYPE,
};
use crate::endpoint::get_request_url;
use crate::error::{ErrorDetails, ProviderError};
use crate::failure::handle_ollama_error;
use crate::outside::text_of_json;
use crate::request::OllamaRequest;
use crate::response::{
    message_with, Latency, OllamaResponse, OllamaResponseWithMetadata, ProviderInferenceResponse,
};
use crate::status::StatusCode;
use crate::stream::{stream_ollama, OllamaStream};
use crate::types::ModelInferenceRequest;

#[allow(unused_imports)]
use crate::credentials::{accepted_credential, is_copy_of, refused_credential, request_key};
#[allow(unused_imports)]
use crate::endpoint::{can_be_slashed, is_request_url};
#[allow(unused_imports)]
use crate::error::ErrorView;
#[allow(unused_imports)]
use crate::failure::{refused_reply, stream_error, StreamFailure};
#[allow(unused_imports)]
use crate::outside::{cannot_be_a_base, json_text};
#[allow(unused_imports)]
use crate::request::is_body_result;
#[allow(unused_imports)]
use crate::response::{finish_reason_of, is_outcome_result, usage_of, ContentBlockOutput};
#[allow(unused_imports)]
use crate::status::is_success_code;
#[allow(unused_imports)]
use crate::stream::{new_stream, unreadable_chunk};
#[allow(unused_imports)]
use crate::types::{messages_view, Text};

verus! {

/// A provider for one model of one Ollama server. `K` is the type of an API
/// key.
#[derive(Debug)]
pub struct OllamaProvider<K> {
    pub model_name: String,
    pub api_base: Option<Url>,
    pub credentials: OllamaCredentials<K>,
}

/// What setting up a provider comes to, given what was found at the location of
/// its credential.
pub open spec fn is_provider_result<K>(
    result: Result<OllamaProvider<K>, ProviderError>,
    model_name: String,
    api_base: Option<Url>,
    found: Result<Credential<K>, ProviderError>,
) -> bool {
    match found {
        Ok(credential) => match accepted_credential(credential) {
            Some(credentials) => result == Ok::<OllamaProvider<K>, ProviderError>(
                OllamaProvider { model_name, api_base, credentials },
            ),
            None => result matches Err(e) && e@ == refused_credential(),
        },
        Err(error) => result == Err::<OllamaProvider<K>, ProviderError>(error),
    }
}

/// The location of the environment variable that is looked at by default.
pub open spec fn is_default_location(location: CredentialLocation) -> bool {
    location matches CredentialLocation::Env(name) && name@ == "OLLAMA_API_KEY"@
}

impl<K: Clone> OllamaProvider<K> {
    /// Sets up a provider. `find_credential` looks a credential up at its
    /// location. Without a configured location the default one is used, and
    /// what came of it is kept in `default_credentials`, where the next
    /// provider without a configured location finds it.
    pub fn new<R: FnOnce(CredentialLocation) -> Result<Credential<K>, ProviderError>>(
        model_name: String,
        api_base: Option<Url>,
        api_key_location: Option<CredentialLocation>,
        default_credentials: &mut Option<OllamaCredentials<K>>,
        find_credential: R,
    ) -> (result: Result<OllamaProvider<K>, ProviderError>)
        requires
            forall|location: CredentialLocation| call_requires(find_credential, (location,)),
        ensures
            match api_key_location {
                Some(location) => {
                    &&& *final(default_credentials) == *old(default_credentials)
                    &&& exists|found: Result<Credential<K>, ProviderError>|
                        {
                            &&& #[trigger] call_ensures(find_credential, (location,), found)
                            &&& is_provider_result(result, model_name, api_base, found)
                        }
                },
                None => match *old(default_credentials) {
                    Some(kept) => {
                        &&& *final(default_credentials) == *old(default_credentials)
                        &&& result matches Ok(provider) && {
                            &&& provider.model_name == model_name
                            &&& provider.api_base == api_base
                            &&& is_copy_of(provider.credentials, kept)
                        }
                    },
                    None => {
                        &&& exists|
                            location: CredentialLocation,
                            found: Result<Credential<K>, ProviderError>,
                        |
                            {
                                &&& is_default_location(location)
                                &&& #[trigger] call_ensures(find_credential, (location,), found)
                                &&& is_provider_result(result, model_name, api_base, found)
                            }
                        &&& match result {
                            Ok(provider) => *final(default_credentials) matches Some(kept)
                                && is_copy_of(kept, provider.credentials),
                            Err(_) => *final(default_credentials) is None,
                        }
                    },
                },
            },
    {
        match api_key_location {
            Some(location) => {
                let credential: Credential<K> = match find_credential(location) {
                    Ok(credential) => credential,
                    Err(error) => return Err(error),
                };
                match OllamaCredentials::try_from(credential) {
                    Ok(credentials) => Ok(OllamaProvider { model_name, api_base, credentials }),
                    Err(error) => Err(error),
                }
            },
            None => {
                if let Some(kept) = default_credentials {
                    return Ok(OllamaProvider { model_name, api_base, credentials: kept.clone() });
                }
                let credential: Credential<K> = match find_credential(default_api_key_location()) {
                    Ok(credential) => credential,
                    Err(error) => return Err(error),
                };
                match OllamaCredentials::try_from(credential) {
                    Ok(credentials) => {
                        *default_credentials = Some(credentials.clone());
                        Ok(OllamaProvider { model_name, api_base, credentials })
                    },
                    Err(error) => Err(error),
                }
            },
        }
    }
}

/// The media type of the bodies that are sent.
pub const CONTENT_TYPE: &'static str = "application/json";

/// Why there is no body to send.
#[derive(Debug)]
pub enum BodyFailure {
    /// The body could not be written as JSON, for this reason.
    Serialization(String),
    /// What the request adds to the body could not be added.
    ExtraBody(ProviderError),
}

/// The error for a body that could not be made.
pub open spec fn body_error(failure: BodyFailure) -> ErrorView {
    match failure {
        BodyFailure::Serialization(reason) => ErrorView::Serialization {
            message: "Error serializing Ollama request: "@ + reason@,
        },
        BodyFailure::ExtraBody(error) => error@,
    }
}

/// The text of a body in errors: empty if the body has none.
pub open spec fn raw_request_text(body: Value) -> Seq<char> {
    match json_text(body) {
        Ok(text) => text,
        Err(_) => Seq::empty(),
    }
}

/// Whether the configured base URL has an endpoint for inference.
pub open spec fn has_endpoint(api_base: Option<Url>) -> bool {
    match api_base {
        None => true,
        Some(base_url) => can_be_slashed(base_url) && !cannot_be_a_base(base_url),
    }
}

/// The key that a borrowed key refers to.
pub open spec fn key_of<K>(api_key: Option<&K>) -> Option<K> {
    match api_key {
        Some(key) => Some(*key),
        None => None,
    }
}

/// Whether `target` is where a request of the provider goes, and with which
/// key. The endpoint is looked at before the key.
pub open spec fn is_target_result<K>(
    target: Result<(Url, Option<&K>), ProviderError>,
    provider: OllamaProvider<K>,
    dynamic_api_keys: Map<Seq<char>, K>,
) -> bool {
    if !has_endpoint(provider.api_base) {
        target matches Err(e) && is_request_url(provider.api_base, Err(e))
    } else {
        match request_key(provider.credentials, dynamic_api_keys) {
            Ok(key) => target matches Ok(t) && is_request_url(provider.api_base, Ok(t.0)) && key_of(
                t.1,
            ) == key,
            Err(error) => target matches Err(e) && e@ == error,
        }
    }
}

/// An inference whose body is to be written as JSON.
#[verifier::reject_recursive_types(K)]
pub struct InferDraft<'a, F, K> {
    pub provider: &'a OllamaProvider<K>,
    pub request: &'a ModelInferenceRequest<F>,
    pub dynamic_api_keys: &'a InferenceCredentials<K>,
}

/// A streamed inference whose body is to be written as JSON.
#[verifier::reject_recursive_types(K)]
pub struct StreamDraft<'a, K> {
    pub provider: &'a OllamaProvider<K>,
    pub dynamic_api_keys: &'a InferenceCredentials<K>,
}

/// An inference whose request is to be sent: a POST of `body` as JSON to `url`,
/// with `api_key`, if there is one, as bearer token.
#[derive(Debug)]
pub struct InferSending<'a, F, K> {
    pub url: Url,
    pub content_type: &'static str,
    pub api_key: Option<&'a K>,
    pub body: Value,
    pub request: &'a ModelInferenceRequest<F>,
}

/// Why a request could not be sent.
#[derive(Debug)]
pub struct SendFailure {
    pub message: String,
    pub status_code: Option<StatusCode>,
}

/// An inference whose reply has begun, and is to be read to its end.
#[derive(Debug)]
pub struct InferReading<'a, F> {
    pub status: StatusCode,
    pub response_time: Duration,
    pub body: Value,
    pub request: &'a ModelInferenceRequest<F>,
}

/// An inference that succeeded, with a reply that is to be parsed.
#[derive(Debug)]
pub struct InferParsing<'a, F> {
    pub raw_response: String,
    pub response_time: Duration,
    pub body: Value,
    pub request: &'a ModelInferenceRequest<F>,
}

/// A streamed inference whose stream is to be opened: a POST of `body` as JSON
/// to `url`, with `api_key`, if there is one, as bearer token.
#[derive(Debug)]
pub struct StreamOpening<'a, K> {
    pub url: Url,
    pub content_type: &'static str,
    pub api_key: Option<&'a K>,
    pub body: Value,
    pub raw_request: String,
}

/// The body with which an inference begins, or why it does not begin.
pub open spec fn payload_of<'a, F, D>(
    result: Result<(OllamaRequest<'a, F>, D), ProviderError>,
) -> Result<OllamaRequest<'a, F>, ProviderError> {
    match result {
        Ok((payload, _)) => Ok(payload),
        Err(error) => Err(error),
    }
}

/// What preparing an inference comes to, given the body to send.
pub open spec fn is_sending_result<F, K>(
    result: Result<InferSending<F, K>, ProviderError>,
    provider: OllamaProvider<K>,
    request: ModelInferenceRequest<F>,
    body: Result<Value, BodyFailure>,
    dynamic_api_keys: Map<Seq<char>, K>,
) -> bool {
    match body {
        Err(failure) => result matches Err(e) && e@ == body_error(failure),
        Ok(body) => {
            &&& is_target_result(
                match result {
                    Ok(sending) => Ok((sending.url, sending.api_key)),
                    Err(error) => Err(error),
                },
                provider,
                dynamic_api_keys,
            )
            &&& result matches Ok(sending) ==> {
                &&& sending.content_type@ == CONTENT_TYPE@
                &&& sending.body == body
                &&& *sending.request == request
            }
        },
    }
}

/// What preparing a streamed inference comes to, given the body to send. The
/// text of the body is needed at once, before the endpoint and the key.
pub open spec fn is_opening_result<K>(
    result: Result<StreamOpening<K>, ProviderError>,
    provider: OllamaProvider<K>,
    body: Result<Value, BodyFailure>,
    dynamic_api_keys: Map<Seq<char>, K>,
) -> bool {
    match body {
        Err(failure) => result matches Err(e) && e@ == body_error(failure),
        Ok(body) => match json_text(body) {
            Err(reason) => result matches Err(e) && e@ == (ErrorView::Serialization {
                message: "Error serializing request: "@ + reason,
            }),
            Ok(text) => {
                &&& is_target_result(
                    match result {
                        Ok(opening) => Ok((opening.url, opening.api_key)),
                        Err(error) => Err(error),
                    },
                    provider,
                    dynamic_api_keys,
                )
                &&& result matches Ok(opening) ==> {
                    &&& opening.content_type@ == CONTENT_TYPE@
                    &&& opening.body == body
                    &&& opening.raw_request@ == text
                }
            },
        },
    }
}

/// The error for a body that could not be made.
fn report_body_failure(failure: BodyFailure) -> (error: ProviderError)
    ensures
        error@ == body_error(failure),
        failure matches BodyFailure::ExtraBody(e) ==> error == e,
{
    match failure {
        BodyFailure::Serialization(reason) => ProviderError::new(
            ErrorDetails::Serialization {
                message: message_with("Error serializing Ollama request: ", reason.as_str()),
            },
        ),
        BodyFailure::ExtraBody(error) => error,
    }
}

/// The text of a body in errors.
fn raw_request_of(body: &Value) -> (text: String)
    ensures
        text@ == raw_request_text(*body),
        json_text(*body) is Ok,
{
    match text_of_json(body) {
        Ok(text) => text,
        Err(_) => String::new(),
    }
}

impl<K> OllamaProvider<K> {
    /// Where a request goes, and with which key.
    fn target<'a>(&'a self, dynamic_api_keys: &'a InferenceCredentials<K>) -> (result: Result<
        (Url, Option<&'a K>),
        ProviderError,
    >)
        ensures
            is_target_result(result, *self, dynamic_api_keys@),
    {
        let url: Url = match get_request_url(&self.api_base) {
            Ok(url) => url,
            Err(error) => return Err(error),
        };
        match self.credentials.get_api_key(dynamic_api_keys) {
            Ok(api_key) => Ok((url, api_key)),
            Err(error) => Err(error),
        }
    }

    /// Begins an inference: gives the body of its request, to be written as
    /// JSON.
    pub fn infer<'a, F: Copy>(
        &'a self,
        request: &'a ModelInferenceRequest<F>,
        dynamic_api_keys: &'a InferenceCredentials<K>,
    ) -> (result: Result<(OllamaRequest<'a, F>, InferDraft<'a, F, K>), ProviderError>)
        ensures
            is_body_result(payload_of(result), self.model_name@, *request),
            result matches Ok((_, draft)) ==> draft == (InferDraft {
                provider: self,
                request,
                dynamic_api_keys,
            }),
    {
        match OllamaRequest::new(self.model_name.as_str(), request) {
            Ok(payload) => Ok((payload, InferDraft { provider: self, request, dynamic_api_keys })),
            Err(error) => Err(error),
        }
    }

    /// Begins a streamed inference: gives the body of its request, to be
    /// written as JSON.
    pub fn infer_stream<'a, F: Copy>(
        &'a self,
        request: &'a ModelInferenceRequest<F>,
        dynamic_api_keys: &'a InferenceCredentials<K>,
    ) -> (result: Result<(OllamaRequest<'a, F>, StreamDraft<'a, K>), ProviderError>)
        ensures
            is_body_result(payload_of(result), self.model_name@, *request),
            result matches Ok((_, draft)) ==> draft == (StreamDraft {
                provider: self,
                dynamic_api_keys,
            }),
    {
        match OllamaRequest::new(self.model_name.as_str(), request) {
            Ok(payload) => Ok((payload, StreamDraft { provider: self, dynamic_api_keys })),
            Err(error) => Err(error),
        }
    }

    /// Ollama runs no batches, whatever they hold and whatever `R` a handle on
    /// one would be.
    pub fn start_batch_inference<F, R>(&self, requests: &[ModelInferenceRequest<F>]) -> (result:
        Result<R, ProviderError>)
        ensures
            result matches Err(e) && e@ == unsupported_batch(),
    {
        Err(report_unsupported_batch())
    }

    /// Ollama runs no batches, so there is none to ask after, whatever `B`
    /// describes one and whatever `R` its state would be.
    pub fn poll_batch_inference<B, R>(&self, batch: &B) -> (result: Result<R, ProviderError>)
        ensures
            result matches Err(e) && e@ == unsupported_batch(),
    {
        Err(report_unsupported_batch())
    }
}

impl<'a, F, K> InferDraft<'a, F, K> {
    /// Takes the JSON of the body, with what the request adds to it, or why
    /// there is none.
    pub fn on_body(self, body: Result<Value, BodyFailure>) -> (result: Result<
        InferSending<'a, F, K>,
        ProviderError,
    >)
        ensures
            is_sending_result(
                result,
                *self.provider,
                *self.request,
                body,
                self.dynamic_api_keys@,
            ),
            body matches Err(BodyFailure::ExtraBody(error)) ==> result == Err::<
                InferSending<'a, F, K>,
                ProviderError,
            >(error),
    {
        match body {
            Ok(body) => match self.provider.target(self.dynamic_api_keys) {
                Ok((url, api_key)) => Ok(
                    InferSending {
                        url,
                        content_type: CONTENT_TYPE,
                        api_key,
                        body,
                        request: self.request,
                    },
                ),
                Err(error) => Err(error),
            },
            Err(failure) => Err(report_body_failure(failure)),
        }
    }
}

impl<'a, K> StreamDraft<'a, K> {
    /// Takes the JSON of the body, with what the request adds to it, or why
    /// there is none.
    pub fn on_body(self, body: Result<Value, BodyFailure>) -> (result: Result<
        StreamOpening<'a, K>,
        ProviderError,
    >)
        ensures
            is_opening_result(result, *self.provider, body, self.dynamic_api_keys@),
            body matches Err(BodyFailure::ExtraBody(error)) ==> result == Err::<
                StreamOpening<'a, K>,
                ProviderError,
            >(error),
            body matches Ok(value) ==> json_text(value) is Ok,
            body is Ok && has_endpoint(self.provider.api_base) && request_key(
                self.provider.credentials,
                self.dynamic_api_keys@,
            ) is Ok ==> result is Ok,
    {
        match body {
            Ok(body) => {
                let raw_request: String = match text_of_json(&body) {
                    Ok(raw_request) => raw_request,
                    Err(reason) => return Err(
                        ProviderError::new(
                            ErrorDetails::Serialization {
                                message: message_with(
                                    "Error serializing request: ",
                                    reason.as_str(),
                                ),
                            },
                        ),
                    ),
                };
                match self.provider.target(self.dynamic_api_keys) {
                    Ok((url, api_key)) => Ok(
                        StreamOpening {
                            url,
                            content_type: CONTENT_TYPE,
                            api_key,
                            body,
                            raw_request,
                        },
                    ),
                    Err(error) => Err(error),
                }
            },
            Err(failure) => Err(report_body_failure(failure)),
        }
    }
}

/// The error for a batch.
pub open spec fn unsupported_batch() -> ErrorView {
    ErrorView::UnsupportedModelProviderForBatchInference { provider_type: PROVIDER_TYPE@ }
}

/// The error for a batch.
fn report_unsupported_batch() -> (error: ProviderError)
    ensures
        error@ == unsupported_batch(),
{
    ProviderError::new(
        ErrorDetails::UnsupportedModelProviderForBatchInference {
            provider_type: PROVIDER_TYPE.to_string(),
        },
    )
}

/// The error for a request that could not be sent.
pub open spec fn unsent_request(
    message: Seq<char>,
    status_code: Option<StatusCode>,
    raw_request: Seq<char>,
) -> ErrorView {
    ErrorView::InferenceClient {
        message: "Error sending request to Ollama: "@ + message,
        status_code,
        provider_type: PROVIDER_TYPE@,
        raw_request: Some(raw_request),
        raw_response: None,
    }
}

/// The error for a reply that cannot be used.
pub open spec fn unusable_reply(
    message: Seq<char>,
    raw_request: Seq<char>,
    raw_response: Option<Seq<char>>,
) -> ErrorView {
    ErrorView::InferenceServer {
        message,
        provider_type: PROVIDER_TYPE@,
        raw_request: Some(raw_request),
        raw_response,
    }
}

/// The error for a request that could not be sent.
fn report_unsent(failure: SendFailure, raw_request: String) -> (error: ProviderError)
    ensures
        error@ == unsent_request(failure.message@, failure.status_code, raw_request@),
{
    ProviderError::new(
        ErrorDetails::InferenceClient {
            message: message_with("Error sending request to Ollama: ", failure.message.as_str()),
            status_code: failure.status_code,
            provider_type: PROVIDER_TYPE.to_string(),
            raw_request: Some(raw_request),
            raw_response: None,
        },
    )
}

/// The error for a reply that cannot be used.
fn report_unusable(message: String, raw_request: String, raw_response: Option<String>) -> (error:
    ProviderError)
    ensures
        error@ == unusable_reply(
            message@,
            raw_request@,
            match raw_response {
                Some(text) => Some(text@),
                None => None,
            },
        ),
{
    ProviderError::new(
        ErrorDetails::InferenceServer {
            message,
            provider_type: PROVIDER_TYPE.to_string(),
            raw_request: Some(raw_request),
            raw_response,
        },
    )
}

/// What sending a request comes to, given the status of the reply, or why there
/// is none.
pub open spec fn is_reading_result<'a, F, K>(
    result: Result<InferReading<'a, F>, ProviderError>,
    sending: InferSending<'a, F, K>,
    outcome: Result<StatusCode, SendFailure>,
    response_time: Duration,
) -> bool {
    match outcome {
        Ok(status) => result == Ok::<InferReading<'a, F>, ProviderError>(
            InferReading { status, response_time, body: sending.body, request: sending.request },
        ),
        Err(failure) => result matches Err(e) && e@ == unsent_request(
            failure.message@,
            failure.status_code,
            raw_request_text(sending.body),
        ),
    }
}

/// What reading a reply comes to, given its text, or why it could not be read.
pub open spec fn is_parsing_result<'a, F>(
    result: Result<InferParsing<'a, F>, ProviderError>,
    reading: InferReading<'a, F>,
    text: Result<String, String>,
) -> bool {
    match (is_success_code(reading.status@), text) {
        (true, Ok(raw_response)) => result == Ok::<InferParsing<'a, F>, ProviderError>(
            InferParsing {
                raw_response,
                response_time: reading.response_time,
                body: reading.body,
                request: reading.request,
            },
        ),
        (true, Err(reason)) => result matches Err(e) && e@ == unusable_reply(
            "Error parsing text response: "@ + reason@,
            raw_request_text(reading.body),
            None,
        ),
        (false, Ok(response_body)) => result matches Err(e) && e@ == refused_reply(
            reading.status,
            response_body@,
        ),
        (false, Err(reason)) => result matches Err(e) && e@ == unusable_reply(
            "Error parsing error response: "@ + reason@,
            raw_request_text(reading.body),
            None,
        ),
    }
}

/// What parsing a reply comes to, given what it says, or why it could not be
/// parsed.
pub open spec fn is_report_result<F>(
    result: Result<ProviderInferenceResponse, ProviderError>,
    parsing: InferParsing<F>,
    parsed: Result<OllamaResponse, String>,
) -> bool {
    match parsed {
        Ok(response) => is_outcome_result(result, parsing.exchange(response)),
        Err(reason) => result matches Err(e) && e@ == unusable_reply(
            "Error parsing JSON response: "@ + reason@,
            raw_request_text(parsing.body),
            Some(parsing.raw_response@),
        ),
    }
}

impl<'a, F, K> InferSending<'a, F, K> {
    /// Takes the outcome of sending: the status of the reply, which began
    /// `response_time` after the request was sent, or why there is none.
    pub fn on_sent(self, outcome: Result<StatusCode, SendFailure>, response_time: Duration) -> (result:
        Result<InferReading<'a, F>, ProviderError>)
        ensures
            is_reading_result(result, self, outcome, response_time),
            outcome is Err ==> json_text(self.body) is Ok,
    {
        match outcome {
            Ok(status) => Ok(
                InferReading { status, response_time, body: self.body, request: self.request },
            ),
            Err(failure) => Err(report_unsent(failure, raw_request_of(&self.body))),
        }
    }
}

impl<'a, F> InferReading<'a, F> {
    /// Takes the text of the reply, or why it could not be read. Only the text
    /// of a reply that reports success is worth parsing.
    pub fn on_text(self, text: Result<String, String>) -> (result: Result<
        InferParsing<'a, F>,
        ProviderError,
    >)
        ensures
            is_parsing_result(result, self, text),
            text is Err ==> json_text(self.body) is Ok,
    {
        if self.status.is_success() {
            match text {
                Ok(raw_response) => Ok(
                    InferParsing {
                        raw_response,
                        response_time: self.response_time,
                        body: self.body,
                        request: self.request,
                    },
                ),
                Err(reason) => Err(
                    report_unusable(
                        message_with("Error parsing text response: ", reason.as_str()),
                        raw_request_of(&self.body),
                        None,
                    ),
                ),
            }
        } else {
            match text {
                Ok(response_body) => Err(handle_ollama_error(self.status, response_body.as_str())),
                Err(reason) => Err(
                    report_unusable(
                        message_with("Error parsing error response: ", reason.as_str()),
                        raw_request_of(&self.body),
                        None,
                    ),
                ),
            }
        }
    }
}

impl<'a, F> InferParsing<'a, F> {
    /// The exchange that ended with `response`.
    pub open spec fn exchange(self, response: OllamaResponse) -> OllamaResponseWithMetadata<'a, F> {
        OllamaResponseWithMetadata {
            response,
            raw_response: self.raw_response,
            latency: Latency::NonStreaming { response_time: self.response_time },
            request: self.body,
            generic_request: self.request,
        }
    }

    /// Takes what the reply says, or why it could not be parsed, and reports
    /// the outcome of the inference.
    pub fn on_parsed(self, parsed: Result<OllamaResponse, String>) -> (result: Result<
        ProviderInferenceResponse,
        ProviderError,
    >)
        ensures
            is_report_result(result, self, parsed),
            parsed is Ok ==> result is Ok,
            json_text(self.body) is Ok,
    {
        match parsed {
            Ok(response) => {
                let exchange = OllamaResponseWithMetadata {
                    response,
                    raw_response: self.raw_response,
                    latency: Latency::NonStreaming { response_time: self.response_time },
                    request: self.body,
                    generic_request: self.request,
                };
                ProviderInferenceResponse::try_from(exchange)
            },
            Err(reason) => Err(
                report_unusable(
                    message_with("Error parsing JSON response: ", reason.as_str()),
                    raw_request_of(&self.body),
                    Some(self.raw_response),
                ),
            ),
        }
    }
}

impl<'a, K> StreamOpening<'a, K> {
    /// Takes the outcome of opening the stream: the stream starts, beside the
    /// text of the body that was sent, or there is a reason why it does not.
    pub fn on_opened(self, opened: Result<(), String>) -> (result: Result<
        (OllamaStream, String),
        ProviderError,
    >)
        ensures
            match opened {
                Ok(()) => result == Ok::<(OllamaStream, String), ProviderError>(
                    (new_stream(), self.raw_request),
                ),
                Err(reason) => result matches Err(e) && e@ == unsent_request(
                    reason@,
                    None,
                    self.raw_request@,
                ),
            },
    {
        match opened {
            Ok(()) => Ok((stream_ollama(), self.raw_request)),
            Err(reason) => Err(
                report_unsent(
                    SendFailure { message: reason, status_code: None },
                    self.raw_request,
                ),
            ),
        }
    }
}

/// An inference succeeds exactly if its request is sent, the reply reports
/// success and can be read and parsed, and the body has a text. Its outcome then
/// reports the exchange: the body that was sent, the reply that was read, what
/// the reply says, and the time it took, beside the messages of the request.
pub proof fn law_outcome_reports_exchange<'a, F, K>(
    sending: InferSending<'a, F, K>,
    sent: Result<StatusCode, SendFailure>,
    response_time: Duration,
    reading: Result<InferReading<'a, F>, ProviderError>,
    text: Result<String, String>,
    parsing: Result<InferParsing<'a, F>, ProviderError>,
    parsed: Result<OllamaResponse, String>,
    result: Result<ProviderInferenceResponse, ProviderError>,
)
    requires
        is_reading_result(reading, sending, sent, response_time),
        reading matches Ok(r) ==> is_parsing_result(parsing, r, text),
        reading matches Ok(_) && parsing matches Ok(p) ==> is_report_result(result, p, parsed),
    ensures
        reading is Ok && parsing is Ok && result is Ok <==> {
            &&& sent matches Ok(status) && is_success_code(status@)
            &&& text is Ok
            &&& parsed is Ok
            &&& json_text(sending.body) is Ok
        },
        reading is Ok && parsing is Ok && result is Ok ==> {
            let outcome = result->Ok_0;
            let response = parsed->Ok_0;
            &&& json_text(sending.body) == Ok::<Seq<char>, Seq<char>>(outcome.raw_request@)
            &&& outcome.raw_response == text->Ok_0
            &&& outcome.output@ == seq![
                ContentBlockOutput::Text(Text { text: response.response }),
            ]
            &&& outcome.usage == usage_of(response)
            &&& outcome.finish_reason == finish_reason_of(response.done)
            &&& outcome.latency == (Latency::NonStreaming { response_time })
            &&& outcome.system == sending.request.system
            &&& messages_view(outcome.input_messages@) == messages_view(sending.request.messages@)
        },
{
}

/// The provider that an error of an inference names.
pub open spec fn provider_type_of(error: ErrorView) -> Option<Seq<char>> {
    match error {
        ErrorView::InferenceClient { provider_type, .. } => Some(provider_type),
        ErrorView::InferenceServer { provider_type, .. } => Some(provider_type),
        ErrorView::UnsupportedModelProviderForBatchInference { provider_type } => Some(
            provider_type,
        ),
        _ => None,
    }
}

/// Every error of an exchange with the server, and of a batch, names this
/// provider.
pub proof fn law_errors_name_provider(
    message: Seq<char>,
    status: StatusCode,
    status_code: Option<StatusCode>,
    raw_request: Seq<char>,
    raw_response: Option<Seq<char>>,
    failure: StreamFailure,
)
    ensures
        provider_type_of(unsent_request(message, status_code, raw_request)) == Some("ollama"@),
        provider_type_of(unusable_reply(message, raw_request, raw_response)) == Some("ollama"@),
        provider_type_of(refused_reply(status, message)) == Some("ollama"@),
        provider_type_of(stream_error(PROVIDER_TYPE@, failure)) == Some("ollama"@),
        provider_type_of(unreadable_chunk(message, raw_request)) == Some("ollama"@),
        provider_type_of(unsupported_batch()) == Some("ollama"@),
{
}

} // verus!
