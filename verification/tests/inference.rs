use ollama_provider::{
    handle_ollama_error, BodyFailure, ContentBlock, ErrorDetails, FinishReason,
    InferenceCredentials, InferSending, Latency, ModelInferenceRequest,
    ModelInferenceRequestJsonMode, OllamaCredentials, OllamaProvider, OllamaRequest,
    OllamaResponse, OllamaResponseWithMetadata, ProviderError, ProviderInferenceResponse,
    RequestMessage, Role, SendFailure, StatusCode,
};
use secrecy::{ExposeSecret, SecretString};
use serde_json::{Number, Value};
use std::time::Duration;
use url::Url;

fn status(code: u16) -> StatusCode {
    StatusCode::from_u16(code).unwrap()
}

fn response() -> OllamaResponse {
    OllamaResponse {
        model: "llama3".to_string(),
        created_at: "2023-01-01T00:00:00Z".to_string(),
        response: "Hello, world!".to_string(),
        done: true,
        total_duration: Some(1000),
        load_duration: Some(200),
        prompt_eval_count: Some(10),
        prompt_eval_duration: Some(300),
        eval_count: Some(20),
        eval_duration: Some(500),
    }
}

fn json_of(request: &OllamaRequest<'_, f32>) -> Value {
    let mut body = serde_json::Map::new();
    body.insert("model".to_string(), Value::String(request.model.to_string()));
    body.insert("prompt".to_string(), Value::String(request.prompt.clone()));
    if let Some(system) = &request.system {
        body.insert("system".to_string(), Value::String(system.clone()));
    }
    if let Some(options) = &request.options {
        let mut fields = serde_json::Map::new();
        if let Some(temperature) = options.temperature {
            let number = Number::from_f64(f64::from(temperature)).unwrap();
            fields.insert("temperature".to_string(), Value::Number(number));
        }
        if let Some(seed) = options.seed {
            fields.insert("seed".to_string(), Value::Number(Number::from(seed)));
        }
        if let Some(num_predict) = options.num_predict {
            fields.insert("num_predict".to_string(), Value::Number(Number::from(num_predict)));
        }
        body.insert("options".to_string(), Value::Object(fields));
    }
    body.insert("stream".to_string(), Value::Bool(request.stream));
    Value::Object(body)
}

fn request() -> ModelInferenceRequest<f32> {
    ModelInferenceRequest {
        messages: vec![RequestMessage {
            role: Role::User,
            content: vec!["test_user".to_string().into()],
        }],
        system: Some("Be brief".to_string()),
        ..Default::default()
    }
}

fn provider(credentials: OllamaCredentials<SecretString>) -> OllamaProvider<SecretString> {
    OllamaProvider { model_name: "llama3".to_string(), api_base: None, credentials }
}

fn small_body() -> Value {
    let mut body = serde_json::Map::new();
    body.insert("stream".to_string(), Value::Bool(false));
    Value::Object(body)
}

fn sending<'a>(
    provider: &'a OllamaProvider<SecretString>,
    request: &'a ModelInferenceRequest<f32>,
    keys: &'a InferenceCredentials<SecretString>,
) -> InferSending<'a, f32, SecretString> {
    let (_, draft) = provider.infer(request, keys).unwrap();
    draft.on_body(Ok(small_body())).unwrap()
}

fn server_error(message: &str, raw_response: Option<&str>) -> ErrorDetails {
    ErrorDetails::InferenceServer {
        message: message.to_string(),
        provider_type: "ollama".to_string(),
        raw_request: Some("{\"stream\":false}".to_string()),
        raw_response: raw_response.map(|text| text.to_string()),
    }
}

#[test]
fn test_ollama_response_with_metadata_try_into() {
    let ollama_response = OllamaResponse {
        model: "llama3".to_string(),
        created_at: "2023-01-01T00:00:00Z".to_string(),
        response: "Hello, world!".to_string(),
        done: true,
        total_duration: Some(1000),
        load_duration: Some(200),
        prompt_eval_count: Some(10),
        prompt_eval_duration: Some(300),
        eval_count: Some(20),
        eval_duration: Some(500),
    };

    let generic_request = ModelInferenceRequest {
        messages: vec![RequestMessage {
            role: Role::User,
            content: vec!["test_user".to_string().into()],
        }],
        system: None,
        temperature: Some(0.5),
        top_p: None,
        presence_penalty: None,
        frequency_penalty: None,
        max_tokens: Some(100),
        stream: false,
        seed: Some(69),
        json_mode: ModelInferenceRequestJsonMode::Off,
    };

    let ollama_response_with_metadata = OllamaResponseWithMetadata {
        response: ollama_response,
        raw_response: "test_response".to_string(),
        latency: Latency::NonStreaming {
            response_time: Duration::from_secs(1),
        },
        request: json_of(&OllamaRequest::new("llama3", &generic_request).unwrap()),
        generic_request: &generic_request,
    };

    let inference_response: ProviderInferenceResponse =
        ollama_response_with_metadata.try_into().unwrap();

    assert_eq!(inference_response.output.len(), 1);
    assert_eq!(inference_response.output[0], "Hello, world!".to_string().into());
    assert_eq!(inference_response.finish_reason, Some(FinishReason::Stop));
    assert_eq!(inference_response.raw_response, "test_response");
    assert_eq!(inference_response.usage.input_tokens, 10);
    assert_eq!(inference_response.usage.output_tokens, 20);
    assert_eq!(
        inference_response.latency,
        Latency::NonStreaming {
            response_time: Duration::from_secs(1)
        }
    );
    assert_eq!(
        inference_response.raw_request,
        "{\"model\":\"llama3\",\"options\":{\"num_predict\":100,\"seed\":69,\
         \"temperature\":0.5},\"prompt\":\"User: test_user\\n\\nAssistant: \",\"stream\":false}"
    );
}

#[test]
fn inference_runs_through_its_stages() {
    let provider = provider(OllamaCredentials::Static(SecretString::from("secret")));
    let request = request();
    let keys = InferenceCredentials::new();
    let (payload, draft) = provider.infer(&request, &keys).unwrap();
    assert_eq!(payload.model, "llama3");
    assert_eq!(payload.prompt, "User: test_user\n\nAssistant: ");

    let sending = draft.on_body(Ok(json_of(&payload))).unwrap();
    assert_eq!(sending.url.as_str(), "http://localhost:11434/api/generate");
    assert_eq!(sending.content_type, "application/json");
    assert_eq!(sending.api_key.unwrap().expose_secret(), "secret");
    assert_eq!(sending.body["model"], Value::String("llama3".to_string()));

    let reading = sending.on_sent(Ok(status(200)), Duration::from_secs(2)).unwrap();
    let parsing = reading.on_text(Ok("the reply".to_string())).unwrap();
    assert_eq!(parsing.raw_response, "the reply");
    let outcome = parsing.on_parsed(Ok(response())).unwrap();
    assert_eq!(outcome.output, vec!["Hello, world!".to_string().into()]);
    assert_eq!(outcome.system, Some("Be brief".to_string()));
    assert_eq!(outcome.input_messages, request.messages);
    assert_eq!(
        outcome.raw_request,
        "{\"model\":\"llama3\",\"prompt\":\"User: test_user\\n\\nAssistant: \",\
         \"stream\":false,\"system\":\"Be brief\"}"
    );
    assert_eq!(outcome.raw_response, "the reply");
    assert_eq!(outcome.latency, Latency::NonStreaming { response_time: Duration::from_secs(2) });
}

#[test]
fn unfinished_reply_gives_no_reason_and_no_counts() {
    let request = request();
    let unfinished = OllamaResponse {
        done: false,
        prompt_eval_count: None,
        eval_count: None,
        ..response()
    };
    let provider = provider(OllamaCredentials::NoKey);
    let keys = InferenceCredentials::new();
    let outcome = sending(&provider, &request, &keys)
        .on_sent(Ok(status(201)), Duration::from_secs(1))
        .unwrap()
        .on_text(Ok("x".to_string()))
        .unwrap()
        .on_parsed(Ok(unfinished))
        .unwrap();
    assert_eq!(outcome.finish_reason, None);
    assert_eq!(outcome.usage.input_tokens, 0);
    assert_eq!(outcome.usage.output_tokens, 0);
}

#[test]
fn body_failures_come_first() {
    let provider: OllamaProvider<SecretString> = OllamaProvider {
        model_name: "llama3".to_string(),
        api_base: Some(Url::parse("mailto:someone@example.com").unwrap()),
        credentials: OllamaCredentials::Dynamic("mine".to_string()),
    };
    let request = request();
    let keys = InferenceCredentials::new();
    let (_, draft) = provider.infer(&request, &keys).unwrap();
    let unserialized = draft.on_body(Err(BodyFailure::Serialization("too deep".to_string())));
    assert_eq!(
        unserialized.unwrap_err().get_owned_details(),
        ErrorDetails::Serialization {
            message: "Error serializing Ollama request: too deep".to_string()
        }
    );
    let extra = ProviderError::new(ErrorDetails::Config { message: "bad pointer".to_string() });
    let (_, draft) = provider.infer_stream(&request, &keys).unwrap();
    let unextended = draft.on_body(Err(BodyFailure::ExtraBody(extra)));
    assert_eq!(
        unextended.unwrap_err().get_owned_details(),
        ErrorDetails::Config { message: "bad pointer".to_string() }
    );
    // Then the endpoint is looked at, and the key last.
    let (_, draft) = provider.infer(&request, &keys).unwrap();
    assert!(matches!(
        draft.on_body(Ok(small_body())).unwrap_err().get_owned_details(),
        ErrorDetails::InvalidBaseUrl { .. }
    ));
    let reachable = OllamaProvider { api_base: None, ..provider };
    let (_, draft) = reachable.infer_stream(&request, &keys).unwrap();
    assert!(matches!(
        draft.on_body(Ok(small_body())).unwrap_err().get_owned_details(),
        ErrorDetails::ApiKeyMissing { .. }
    ));
}

#[test]
fn refused_messages_begin_no_inference() {
    let provider = provider(OllamaCredentials::NoKey);
    let request: ModelInferenceRequest<f32> = ModelInferenceRequest {
        messages: vec![RequestMessage {
            role: Role::User,
            content: vec![ContentBlock::Unknown { data: "{}".to_string() }],
        }],
        ..Default::default()
    };
    let keys = InferenceCredentials::new();
    let refused = ErrorDetails::InvalidMessage {
        message: "Unknown content block not supported in Ollama".to_string(),
    };
    match provider.infer(&request, &keys) {
        Ok(_) => panic!("the messages are refused"),
        Err(error) => assert_eq!(error.get_owned_details(), refused),
    }
    match provider.infer_stream(&request, &keys) {
        Ok(_) => panic!("the messages are refused"),
        Err(error) => assert_eq!(error.get_owned_details(), refused),
    }
}

#[test]
fn unsent_request_is_a_client_error() {
    let provider = provider(OllamaCredentials::NoKey);
    let request = request();
    let keys = InferenceCredentials::new();
    let failure = SendFailure { message: "refused".to_string(), status_code: Some(status(502)) };
    let sending = sending(&provider, &request, &keys);
    assert!(sending.api_key.is_none());
    let error = sending.on_sent(Err(failure), Duration::from_secs(1)).unwrap_err();
    assert_eq!(
        error.get_owned_details(),
        ErrorDetails::InferenceClient {
            message: "Error sending request to Ollama: refused".to_string(),
            status_code: Some(status(502)),
            provider_type: "ollama".to_string(),
            raw_request: Some("{\"stream\":false}".to_string()),
            raw_response: None,
        }
    );
}

#[test]
fn unusable_replies_are_server_errors() {
    let provider = provider(OllamaCredentials::NoKey);
    let request = request();
    let keys = InferenceCredentials::new();
    let second = Duration::from_secs(1);

    let reading = sending(&provider, &request, &keys).on_sent(Ok(status(200)), second).unwrap();
    let error = reading.on_text(Err("cut off".to_string())).unwrap_err();
    assert_eq!(
        error.get_owned_details(),
        server_error("Error parsing text response: cut off", None)
    );

    let reading = sending(&provider, &request, &keys).on_sent(Ok(status(500)), second).unwrap();
    let error = reading.on_text(Err("cut off".to_string())).unwrap_err();
    assert_eq!(
        error.get_owned_details(),
        server_error("Error parsing error response: cut off", None)
    );

    let reading = sending(&provider, &request, &keys).on_sent(Ok(status(200)), second).unwrap();
    let parsing = reading.on_text(Ok("{oops".to_string())).unwrap();
    let error = parsing.on_parsed(Err("expected value".to_string())).unwrap_err();
    assert_eq!(
        error.get_owned_details(),
        server_error("Error parsing JSON response: expected value", Some("{oops"))
    );
}

#[test]
fn refused_replies_are_blamed_by_their_status() {
    for code in [400, 401, 403, 429] {
        assert_eq!(
            handle_ollama_error(status(code), "no").get_owned_details(),
            ErrorDetails::InferenceClient {
                message: "no".to_string(),
                status_code: Some(status(code)),
                provider_type: "ollama".to_string(),
                raw_request: None,
                raw_response: None,
            }
        );
    }
    for code in [100, 302, 402, 404, 500, 503, 999] {
        assert_eq!(
            handle_ollama_error(status(code), "no").get_owned_details(),
            ErrorDetails::InferenceServer {
                message: "no".to_string(),
                provider_type: "ollama".to_string(),
                raw_request: None,
                raw_response: None,
            }
        );
    }
}

#[test]
fn reply_without_success_is_refused() {
    let provider = provider(OllamaCredentials::NoKey);
    let request = request();
    let keys = InferenceCredentials::new();
    let reading = sending(&provider, &request, &keys)
        .on_sent(Ok(status(300)), Duration::from_secs(1))
        .unwrap();
    let error = reading.on_text(Ok("moved".to_string())).unwrap_err();
    assert_eq!(error, handle_ollama_error(status(300), "moved"));
}

#[test]
fn streamed_inference_starts_a_stream() {
    let provider = provider(OllamaCredentials::Dynamic("mine".to_string()));
    let mut keys = InferenceCredentials::new();
    keys.insert("mine".to_string(), SecretString::from("secret"));
    let request = request();
    let (payload, draft) = provider.infer_stream(&request, &keys).unwrap();
    assert_eq!(payload.system, Some("Be brief".to_string()));
    let opening = draft.on_body(Ok(small_body())).unwrap();
    assert_eq!(opening.url.as_str(), "http://localhost:11434/api/generate");
    assert_eq!(opening.content_type, "application/json");
    assert_eq!(opening.api_key.unwrap().expose_secret(), "secret");
    assert_eq!(opening.body, small_body());
    let (stream, raw_request) = opening.on_opened(Ok(())).unwrap();
    assert!(!stream.closed);
    assert_eq!(raw_request, "{\"stream\":false}");

    let (_, draft) = provider.infer_stream(&request, &keys).unwrap();
    let opening = draft.on_body(Ok(small_body())).unwrap();
    let error = opening.on_opened(Err("cannot clone request".to_string())).unwrap_err();
    assert_eq!(
        error.get_owned_details(),
        ErrorDetails::InferenceClient {
            message: "Error sending request to Ollama: cannot clone request".to_string(),
            status_code: None,
            provider_type: "ollama".to_string(),
            raw_request: Some("{\"stream\":false}".to_string()),
            raw_response: None,
        }
    );
}

#[test]
fn batches_are_not_supported() {
    let provider = provider(OllamaCredentials::NoKey);
    let unsupported = ErrorDetails::UnsupportedModelProviderForBatchInference {
        provider_type: "ollama".to_string(),
    };
    let started: Result<(), ProviderError> = provider.start_batch_inference(&[request()]);
    assert_eq!(started.unwrap_err().get_owned_details(), unsupported);
    let polled: Result<(), ProviderError> = provider.poll_batch_inference(&"batch");
    assert_eq!(polled.unwrap_err().get_owned_details(), unsupported);
}

#[test]
fn status_codes_have_three_digits() {
    assert!(StatusCode::from_u16(99).is_none());
    assert!(StatusCode::from_u16(1000).is_none());
    assert_eq!(status(100).as_u16(), 100);
    assert_eq!(status(999).as_u16(), 999);
    assert!(!status(199).is_success());
    assert!(status(200).is_success());
    assert!(status(299).is_success());
    assert!(!status(300).is_success());
}

#[test]
fn copies_of_messages_are_equal() {
    let message = RequestMessage {
        role: Role::Assistant,
        content: vec![
            "text".to_string().into(),
            ContentBlock::Unknown { data: "{}".to_string() },
        ],
    };
    assert_eq!(message.clone(), message);
}
