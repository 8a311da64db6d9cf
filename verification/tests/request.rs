use ollama_provider::{
    ContentBlock, ErrorDetails, ModelInferenceRequest, ModelInferenceRequestJsonMode,
    OllamaRequest, RequestMessage, Role, ToolCall,
};

#[test]
fn test_ollama_request_new() {
    let request = ModelInferenceRequest {
        messages: vec![
            RequestMessage {
                role: Role::User,
                content: vec!["Hello".to_string().into()],
            },
            RequestMessage {
                role: Role::Assistant,
                content: vec!["Hi there!".to_string().into()],
            },
        ],
        system: Some("You are a helpful assistant".to_string()),
        temperature: Some(0.7),
        max_tokens: Some(100),
        seed: Some(42),
        top_p: Some(0.9),
        presence_penalty: Some(0.1),
        frequency_penalty: Some(0.2),
        stream: true,
        json_mode: ModelInferenceRequestJsonMode::Off,
        ..Default::default()
    };

    let ollama_request = OllamaRequest::new("llama3", &request).unwrap();

    assert_eq!(ollama_request.model, "llama3");
    assert_eq!(ollama_request.prompt, "User: Hello\n\nAssistant: Hi there!\n\nAssistant: ");
    assert_eq!(ollama_request.system, Some("You are a helpful assistant".to_string()));
    assert!(ollama_request.stream);
    assert!(ollama_request.format.is_none());

    let options = ollama_request.options.unwrap();
    assert_eq!(options.temperature, Some(0.7));
    assert_eq!(options.num_predict, Some(100));
    assert_eq!(options.seed, Some(42));
    assert_eq!(options.top_p, Some(0.9));
    assert_eq!(options.presence_penalty, Some(0.1));
    assert_eq!(options.frequency_penalty, Some(0.2));
}

#[test]
fn request_without_parameters_has_no_options() {
    let request: ModelInferenceRequest<f32> = ModelInferenceRequest::default();
    let body = OllamaRequest::new("llama3", &request).unwrap();
    assert_eq!(body.prompt, "Assistant: ");
    assert!(body.options.is_none());
    assert!(body.system.is_none());
    assert!(body.template.is_none());
    assert!(body.context.is_none());
    assert!(body.raw.is_none());
    assert!(!body.stream);
}

#[test]
fn any_one_parameter_brings_the_options() {
    let unset: ModelInferenceRequest<f32> = ModelInferenceRequest::default();
    let seeded = ModelInferenceRequest { seed: Some(7), ..unset };
    let options = OllamaRequest::new("llama3", &seeded).unwrap().options.unwrap();
    assert_eq!(options.seed, Some(7));
    assert_eq!(options.temperature, None);
    assert_eq!(options.num_predict, None);

    let capped: ModelInferenceRequest<f32> =
        ModelInferenceRequest { max_tokens: Some(5), ..Default::default() };
    let options = OllamaRequest::new("llama3", &capped).unwrap().options.unwrap();
    assert_eq!(options.num_predict, Some(5));
    assert_eq!(options.seed, None);

    let penalized: ModelInferenceRequest<f32> =
        ModelInferenceRequest { presence_penalty: Some(0.5), ..Default::default() };
    let options = OllamaRequest::new("llama3", &penalized).unwrap().options.unwrap();
    assert_eq!(options.presence_penalty, Some(0.5));
    assert_eq!(options.frequency_penalty, None);
    assert_eq!(options.top_p, None);
}

#[test]
fn json_modes_ask_for_json() {
    for json_mode in [ModelInferenceRequestJsonMode::On, ModelInferenceRequestJsonMode::Strict] {
        let request: ModelInferenceRequest<f32> =
            ModelInferenceRequest { json_mode, ..Default::default() };
        let body = OllamaRequest::new("llama3", &request).unwrap();
        assert_eq!(body.format, Some("json".to_string()));
    }
}

#[test]
fn request_is_refused_for_its_messages() {
    let request: ModelInferenceRequest<f32> = ModelInferenceRequest {
        messages: vec![RequestMessage {
            role: Role::Assistant,
            content: vec![ContentBlock::ToolCall(ToolCall {
                id: "1".to_string(),
                name: "weather".to_string(),
                arguments: "{}".to_string(),
            })],
        }],
        ..Default::default()
    };
    let error = OllamaRequest::new("llama3", &request).unwrap_err();
    assert_eq!(
        error.get_owned_details(),
        ErrorDetails::InvalidMessage {
            message: "Tool calls not supported in Ollama".to_string()
        }
    );
}
