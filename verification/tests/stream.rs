use ollama_provider::{
    convert_stream_error, stream_ollama, ContentBlockChunk, ErrorDetails, FinishReason,
    OllamaResponse, OllamaStream, ProviderInferenceResponseChunk, ProviderError, StreamEvent,
    StreamFailure, TextChunk, Usage,
};
use std::time::Duration;

fn piece(text: &str, done: bool, input: Option<u32>, output: Option<u32>) -> OllamaResponse {
    OllamaResponse {
        model: "llama3".to_string(),
        created_at: "2023-01-01T00:00:00Z".to_string(),
        response: text.to_string(),
        done,
        total_duration: None,
        load_duration: None,
        prompt_eval_count: input,
        prompt_eval_duration: None,
        eval_count: output,
        eval_duration: None,
    }
}

fn message(response: OllamaResponse) -> StreamEvent {
    StreamEvent::Message {
        data: format!("raw {}", response.response),
        parsed: Ok(response),
        latency: Duration::from_millis(5),
    }
}

fn run(
    stream: &mut OllamaStream,
    events: Vec<StreamEvent>,
) -> Vec<Result<ProviderInferenceResponseChunk, ProviderError>> {
    events.into_iter().filter_map(|event| stream.on_event(event)).collect()
}

#[test]
fn reply_becomes_chunks() {
    let mut stream = stream_ollama();
    let items = run(
        &mut stream,
        vec![
            StreamEvent::Open,
            message(piece("Hel", false, Some(10), None)),
            message(piece("lo", true, None, Some(2))),
        ],
    );
    assert_eq!(items.len(), 2);
    let first = items[0].as_ref().unwrap();
    assert_eq!(
        first.content,
        vec![ContentBlockChunk::Text(TextChunk { text: "Hel".to_string(), id: "0".to_string() })]
    );
    assert_eq!(first.usage, None);
    assert_eq!(first.finish_reason, None);
    assert_eq!(first.raw_response, "raw Hel");
    assert_eq!(first.latency, Duration::from_millis(5));

    let last = items[1].as_ref().unwrap();
    assert_eq!(last.usage, Some(Usage { input_tokens: 10, output_tokens: 2 }));
    assert_eq!(last.finish_reason, Some(FinishReason::Stop));
    assert!(stream.closed);
}

#[test]
fn usage_is_what_was_reported_last() {
    let mut stream = stream_ollama();
    let items = run(
        &mut stream,
        vec![
            message(piece("a", false, Some(1), Some(1))),
            message(piece("b", false, Some(9), None)),
            message(piece("c", true, None, Some(4))),
        ],
    );
    let usage = items[2].as_ref().unwrap().usage;
    assert_eq!(usage, Some(Usage { input_tokens: 9, output_tokens: 4 }));
}

#[test]
fn unreported_usage_is_zero() {
    let mut stream = stream_ollama();
    let items = run(&mut stream, vec![message(piece("a", true, None, None))]);
    let usage = items[0].as_ref().unwrap().usage;
    assert_eq!(usage, Some(Usage { input_tokens: 0, output_tokens: 0 }));
}

#[test]
fn closed_stream_is_silent() {
    let mut stream = stream_ollama();
    let items = run(
        &mut stream,
        vec![
            message(piece("a", true, Some(3), Some(4))),
            message(piece("b", false, Some(5), Some(6))),
            StreamEvent::Failed(StreamFailure::Other { message: "late".to_string() }),
        ],
    );
    assert_eq!(items.len(), 1);
    assert_eq!(stream.prompt_eval_count, 3);
    assert_eq!(stream.eval_count, 4);
}

#[test]
fn failures_are_passed_on_and_do_not_end_the_stream() {
    let mut stream = stream_ollama();
    let mut items = run(
        &mut stream,
        vec![
            message(piece("a", false, Some(3), None)),
            StreamEvent::Failed(StreamFailure::Other { message: "hiccup".to_string() }),
            StreamEvent::Message {
                data: "{oops".to_string(),
                parsed: Err("bad JSON".to_string()),
                latency: Duration::from_millis(7),
            },
            message(piece("b", true, None, Some(1))),
        ],
    );
    assert_eq!(items.len(), 4);
    let last = items.pop().unwrap().unwrap();
    assert_eq!(last.usage, Some(Usage { input_tokens: 3, output_tokens: 1 }));
    assert_eq!(
        items.pop().unwrap().unwrap_err().get_owned_details(),
        ErrorDetails::InferenceServer {
            message: "Error parsing chunk. Error: bad JSON, Data: {oops".to_string(),
            provider_type: "ollama".to_string(),
            raw_request: None,
            raw_response: None,
        }
    );
    assert_eq!(
        items.pop().unwrap().unwrap_err().get_owned_details(),
        ErrorDetails::InferenceServer {
            message: "hiccup".to_string(),
            provider_type: "ollama".to_string(),
            raw_request: None,
            raw_response: None,
        }
    );
}

#[test]
fn refused_stream_keeps_the_reply() {
    let error = convert_stream_error(
        "ollama".to_string(),
        StreamFailure::InvalidStatusCode {
            message: "Invalid status code: 404 Not Found".to_string(),
            body: Ok("model not found".to_string()),
        },
    );
    assert_eq!(
        error.get_owned_details(),
        ErrorDetails::InferenceServer {
            message: "Invalid status code: 404 Not Found".to_string(),
            provider_type: "ollama".to_string(),
            raw_request: None,
            raw_response: Some("model not found".to_string()),
        }
    );

    let error = convert_stream_error(
        "ollama".to_string(),
        StreamFailure::InvalidStatusCode {
            message: "Invalid status code: 404 Not Found".to_string(),
            body: Err("connection reset".to_string()),
        },
    );
    assert!(matches!(
        error.get_owned_details(),
        ErrorDetails::InferenceServer { raw_response: None, .. }
    ));
}
