//! What a reply of Ollama's generate endpoint comes to.
use core::time::Duration;
use vstd::prelude::*;

use crate::error::{ErrorDetails, ProviderError};
use crate::outside::text_of_json;
use crate::types::{clone_messages, ModelInferenceRequest, RequestMessage, Text};

#[allow(unused_imports)]
use crate::error::ErrorView;
#[allow(unused_imports)]
use crate::outside::json_text;
#[allow(unused_imports)]
use crate::types::messages_view;

verus! {

/// A reply, or one piece of a streamed reply.
#[derive(Debug)]
pub struct OllamaResponse {
    pub model: String,
    pub created_at: String,
    pub response: String,
    /// Whether the reply ends here.
    pub done: bool,
    pub total_duration: Option<u64>,
    pub load_duration: Option<u64>,
    /// How many tokens the prompt had.
    pub prompt_eval_count: Option<u32>,
    pub prompt_eval_duration: Option<u64>,
    /// How many tokens were generated.
    pub eval_count: Option<u32>,
    pub eval_duration: Option<u64>,
}

/// How long a reply took.
#[derive(Debug, PartialEq, Eq)]
pub enum Latency {
    /// The reply came in one piece, after this time.
    NonStreaming { response_time: Duration },
}

/// Why the model stopped.
#[derive(Clone, Copy, Debug, PartialEq, Eq, Structural)]
pub enum FinishReason {
    Stop,
}

/// How many tokens went in and came out.
#[derive(Clone, Copy, Debug, PartialEq, Eq, Structural)]
pub struct Usage {
    pub input_tokens: u32,
    pub output_tokens: u32,
}

/// One block of what the model said.
#[derive(Debug, PartialEq, Eq)]
pub enum ContentBlockOutput {
    Text(Text),
}

impl From<String> for ContentBlockOutput {
    fn from(text: String) -> (block: ContentBlockOutput) {
        ContentBlockOutput::Text(Text { text })
    }
}

impl vstd::std_specs::convert::FromSpecImpl<String> for ContentBlockOutput {
    open spec fn obeys_from_spec() -> bool {
        true
    }

    open spec fn from_spec(text: String) -> ContentBlockOutput {
        ContentBlockOutput::Text(Text { text })
    }
}

/// The outcome of an inference, as every provider delivers it.
#[derive(Debug)]
pub struct ProviderInferenceResponse {
    pub output: Vec<ContentBlockOutput>,
    pub system: Option<String>,
    pub input_messages: Vec<RequestMessage>,
    pub raw_request: String,
    pub raw_response: String,
    pub usage: Usage,
    pub latency: Latency,
    pub finish_reason: Option<FinishReason>,
}

/// A reply, with what is known of the exchange that it ended.
#[derive(Debug)]
pub struct OllamaResponseWithMetadata<'a, F> {
    pub response: OllamaResponse,
    /// The text that the reply was read from.
    pub raw_response: String,
    pub latency: Latency,
    /// The body that was sent.
    pub request: serde_json::Value,
    pub generic_request: &'a ModelInferenceRequest<F>,
}

/// The reason to stop that a reply gives, which it does at its end.
pub open spec fn finish_reason_of(done: bool) -> Option<FinishReason> {
    if done {
        Some(FinishReason::Stop)
    } else {
        None
    }
}

/// The usage that a reply reports. A count that it leaves out is zero.
pub open spec fn usage_of(response: OllamaResponse) -> Usage {
    Usage {
        input_tokens: match response.prompt_eval_count {
            Some(count) => count,
            None => 0,
        },
        output_tokens: match response.eval_count {
            Some(count) => count,
            None => 0,
        },
    }
}

/// Whether `outcome` reports the exchange that `value` describes, with
/// `raw_request` as the text of the body that was sent.
pub open spec fn is_outcome_of<F>(
    outcome: ProviderInferenceResponse,
    value: OllamaResponseWithMetadata<F>,
    raw_request: Seq<char>,
) -> bool {
    &&& outcome.output@ == seq![ContentBlockOutput::Text(Text { text: value.response.response })]
    &&& outcome.system == value.generic_request.system
    &&& messages_view(outcome.input_messages@) == messages_view(value.generic_request.messages@)
    &&& outcome.raw_request@ == raw_request
    &&& outcome.raw_response == value.raw_response
    &&& outcome.usage == usage_of(value.response)
    &&& outcome.latency == value.latency
    &&& outcome.finish_reason == finish_reason_of(value.response.done)
}

/// What reporting an exchange comes to: its outcome, or an error if the body
/// that was sent has no text.
pub open spec fn is_outcome_result<F>(
    result: Result<ProviderInferenceResponse, ProviderError>,
    value: OllamaResponseWithMetadata<F>,
) -> bool {
    match json_text(value.request) {
        Ok(raw_request) => result matches Ok(outcome) && is_outcome_of(outcome, value, raw_request),
        Err(reason) => result matches Err(e) && e@ == (ErrorView::Serialization {
            message: "Error serializing request body as JSON: "@ + reason,
        }),
    }
}

/// A message that ends with the words of the error behind it.
pub(crate) fn message_with(introduction: &str, reason: &str) -> (message: String)
    ensures
        message@ == introduction@ + reason@,
{
    let mut message: String = introduction.to_string();
    message.append(reason);
    message
}

/// Reports an exchange, given the text of the body that was sent.
pub fn report_exchange<F>(value: OllamaResponseWithMetadata<'_, F>, raw_request: String) -> (outcome:
    ProviderInferenceResponse)
    ensures
        is_outcome_of(outcome, value, raw_request@),
{
    let finish_reason: Option<FinishReason> = if value.response.done {
        Some(FinishReason::Stop)
    } else {
        None
    };
    let usage: Usage = Usage {
        input_tokens: value.response.prompt_eval_count.unwrap_or(0),
        output_tokens: value.response.eval_count.unwrap_or(0),
    };
    let system: Option<String> = match &value.generic_request.system {
        Some(system) => Some(system.clone()),
        None => None,
    };
    let input_messages: Vec<RequestMessage> = clone_messages(&value.generic_request.messages);
    let output: Vec<ContentBlockOutput> = vec![
        ContentBlockOutput::Text(Text { text: value.response.response }),
    ];
    proof {
        assert(output@ =~= seq![
            ContentBlockOutput::Text(Text { text: value.response.response }),
        ]);
    }
    ProviderInferenceResponse {
        output,
        system,
        input_messages,
        raw_request,
        raw_response: value.raw_response,
        usage,
        latency: value.latency,
        finish_reason,
    }
}

impl<'a, F> TryFrom<OllamaResponseWithMetadata<'a, F>> for ProviderInferenceResponse {
    type Error = ProviderError;

    fn try_from(value: OllamaResponseWithMetadata<'a, F>) -> (result: Result<
        ProviderInferenceResponse,
        ProviderError,
    >)
        ensures
            is_outcome_result(result, value),
            result is Ok,
    {
        match text_of_json(&value.request) {
            Ok(raw_request) => Ok(report_exchange(value, raw_request)),
            Err(reason) => Err(
                ProviderError::new(
                    ErrorDetails::Serialization {
                        message: message_with(
                            "Error serializing request body as JSON: ",
                            reason.as_str(),
                        ),
                    },
                ),
            ),
        }
    }
}

/// The contract of `try_from` itself says what it returns. No term does:
/// messages are equal by what they say, not as values.
impl<'a, F> vstd::std_specs::convert::TryFromSpecImpl<OllamaResponseWithMetadata<'a, F>> for ProviderInferenceResponse {
    open spec fn obeys_try_from_spec() -> bool {
        false
    }

    open spec fn try_from_spec(value: OllamaResponseWithMetadata<'a, F>) -> Result<
        ProviderInferenceResponse,
        ProviderError,
    > {
        choose|result: Result<ProviderInferenceResponse, ProviderError>|
            is_outcome_result(result, value)
    }
}

} // verus!
