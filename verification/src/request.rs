//! The body of a request to Ollama's generate endpoint.
use vstd::prelude::*;

use crate::error::ProviderError;
use crate::prompt::format_messages_as_prompt;
use crate::types::{ModelInferenceRequest, ModelInferenceRequestJsonMode};

#[allow(unused_imports)]
use crate::error::{opt_text, ErrorView};
#[allow(unused_imports)]
use crate::prompt::{conversation_refusal, prompt_text};
#[allow(unused_imports)]
use crate::types::messages_view;

verus! {

/// The sampling options of a request. `F` is their number type.
#[derive(Debug, PartialEq, Eq)]
pub struct OllamaOptions<F> {
    pub temperature: Option<F>,
    pub top_p: Option<F>,
    pub frequency_penalty: Option<F>,
    pub presence_penalty: Option<F>,
    pub seed: Option<u32>,
    /// How many tokens to generate at most.
    pub num_predict: Option<u32>,
}

/// The body of a request. An absent field is left out of the JSON that is sent.
#[derive(Debug)]
pub struct OllamaRequest<'a, F> {
    pub model: &'a str,
    pub prompt: String,
    pub system: Option<String>,
    pub template: Option<String>,
    pub context: Option<Vec<i32>>,
    pub format: Option<String>,
    pub raw: Option<bool>,
    pub options: Option<OllamaOptions<F>>,
    pub stream: bool,
}

/// Whether a request sets any sampling parameter.
pub open spec fn sets_options<F>(request: ModelInferenceRequest<F>) -> bool {
    ||| request.temperature is Some
    ||| request.top_p is Some
    ||| request.frequency_penalty is Some
    ||| request.presence_penalty is Some
    ||| request.seed is Some
    ||| request.max_tokens is Some
}

/// The sampling options of a request, if it sets any.
pub open spec fn options_of<F>(request: ModelInferenceRequest<F>) -> Option<OllamaOptions<F>> {
    if sets_options(request) {
        Some(
            OllamaOptions {
                temperature: request.temperature,
                top_p: request.top_p,
                frequency_penalty: request.frequency_penalty,
                presence_penalty: request.presence_penalty,
                seed: request.seed,
                num_predict: request.max_tokens,
            },
        )
    } else {
        None
    }
}

/// The answer format that a JSON mode asks for.
pub open spec fn format_of(json_mode: ModelInferenceRequestJsonMode) -> Option<Seq<char>> {
    match json_mode {
        ModelInferenceRequestJsonMode::On => Some("json"@),
        ModelInferenceRequestJsonMode::Strict => Some("json"@),
        ModelInferenceRequestJsonMode::Off => None,
    }
}

/// Whether `body` asks `model` for what `request` wants.
pub open spec fn is_body_of<F>(
    body: OllamaRequest<F>,
    model: Seq<char>,
    request: ModelInferenceRequest<F>,
) -> bool {
    &&& body.model@ == model
    &&& body.prompt@ == prompt_text(messages_view(request.messages@))
    &&& body.system == request.system
    &&& body.template is None
    &&& body.context is None
    &&& opt_text(body.format) == format_of(request.json_mode)
    &&& body.raw is None
    &&& body.options == options_of(request)
    &&& body.stream == request.stream
}

/// What making the body of a request comes to. A request is refused for its
/// messages alone.
pub open spec fn is_body_result<F>(
    result: Result<OllamaRequest<F>, ProviderError>,
    model: Seq<char>,
    request: ModelInferenceRequest<F>,
) -> bool {
    match conversation_refusal(messages_view(request.messages@)) {
        None => result matches Ok(body) && is_body_of(body, model, request),
        Some(why) => result matches Err(e) && e@ == (ErrorView::InvalidMessage { message: why }),
    }
}

impl<'a, F: Copy> OllamaRequest<'a, F> {
    /// The body that asks `model` for what `request` wants.
    pub fn new(model: &'a str, request: &'a ModelInferenceRequest<F>) -> (result: Result<
        OllamaRequest<'a, F>,
        ProviderError,
    >)
        ensures
            is_body_result(result, model@, *request),
    {
        let prompt: String = match format_messages_as_prompt(request.messages.as_slice()) {
            Ok(prompt) => prompt,
            Err(error) => return Err(error),
        };
        let options: Option<OllamaOptions<F>> = if request.temperature.is_some()
            || request.top_p.is_some() || request.frequency_penalty.is_some()
            || request.presence_penalty.is_some() || request.seed.is_some()
            || request.max_tokens.is_some() {
            Some(
                OllamaOptions {
                    temperature: request.temperature,
                    top_p: request.top_p,
                    frequency_penalty: request.frequency_penalty,
                    presence_penalty: request.presence_penalty,
                    seed: request.seed,
                    num_predict: request.max_tokens,
                },
            )
        } else {
            None
        };
        let system: Option<String> = match &request.system {
            Some(system) => Some(system.clone()),
            None => None,
        };
        let format: Option<String> = match request.json_mode {
            ModelInferenceRequestJsonMode::On | ModelInferenceRequestJsonMode::Strict => Some(
                "json".to_string(),
            ),
            ModelInferenceRequestJsonMode::Off => None,
        };
        Ok(
            OllamaRequest {
                model,
                prompt,
                system,
                template: None,
                context: None,
                format,
                raw: None,
                options,
                stream: request.stream,
            },
        )
    }
}

} // verus!
