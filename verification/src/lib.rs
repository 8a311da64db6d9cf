//! A verified provider for chat inference over an Ollama server.
//!
//! The library decides what is sent, how each reply is read and which error is
//! reported. It performs no input or output of its own: the caller sends the
//! requests that the library prepares and hands the outcomes back to it.
pub mod credentials;
pub mod endpoint;
pub mod error;
pub mod failure;
pub mod laws;
pub mod outside;
pub mod prompt;
pub mod provider;
pub mod request;
pub mod response;
pub mod status;
pub mod stream;
pub mod types;

pub use credentials::{
    default_api_key_location, Credential, CredentialLocation, InferenceCredentials,
    OllamaCredentials, PROVIDER_NAME, PROVIDER_TYPE,
};
pub use endpoint::{get_generate_url, get_request_url};
pub use error::{ErrorDetails, ProviderError};
pub use failure::{convert_stream_error, handle_ollama_error, StreamFailure};
pub use prompt::format_messages_as_prompt;
pub use provider::{
    BodyFailure, InferDraft, InferParsing, InferReading, InferSending, OllamaProvider, SendFailure,
    StreamDraft, StreamOpening, CONTENT_TYPE,
};
pub use request::{OllamaOptions, OllamaRequest};
pub use response::{
    ContentBlockOutput, FinishReason, Latency, OllamaResponse, OllamaResponseWithMetadata,
    ProviderInferenceResponse, Usage,
};
pub use status::StatusCode;
pub use stream::{
    stream_ollama, ContentBlockChunk, OllamaStream, ProviderInferenceResponseChunk, StreamEvent,
    TextChunk,
};
pub use types::{
    ContentBlock, Image, ModelInferenceRequest, ModelInferenceRequestJsonMode, RequestMessage, Role,
    Text, Thought, ToolCall, ToolResult,
};
