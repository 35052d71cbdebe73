//! Request and response value types shared by every backend client.
//!
//! Sampling parameters that the wire protocols carry as small real numbers are
//! held here in thousandths (`temperature: Some(700)` stands for 0.7), and
//! embedding vector components as the bit patterns of their 32-bit encoding,
//! so that the routing logic stays on plain integers.

use vstd::prelude::*;

verus! {

/// A chat message in a conversation.
#[derive(Debug)]
pub struct ChatMessage {
    /// The role of the message sender (e.g., "system", "user", "assistant").
    pub role: String,
    /// The content of the message.
    pub content: String,
    /// Optional name of the sender.
    pub name: Option<String>,
}

/// Request for a chat completion.
#[derive(Debug)]
pub struct ChatCompletionRequest {
    /// The model to use for the completion.
    pub model: String,
    /// The messages to generate a completion for.
    pub messages: Vec<ChatMessage>,
    /// The maximum number of tokens to generate.
    pub max_tokens: Option<u32>,
    /// The sampling temperature, in thousandths (0..=2000).
    pub temperature: Option<u32>,
    /// The nucleus sampling parameter, in thousandths (0..=1000).
    pub top_p: Option<u32>,
    /// Whether to stream the response.
    pub stream: Option<bool>,
    /// Additional model-specific parameters, as raw key/value text.
    pub additional_params: Vec<(String, String)>,
}

/// A chat completion choice.
#[derive(Debug)]
pub struct ChatCompletionChoice {
    /// The index of this choice.
    pub index: usize,
    /// The generated message.
    pub message: ChatMessage,
    /// The reason the generation stopped.
    pub finish_reason: Option<String>,
}

/// Response from a chat completion request.
#[derive(Debug)]
pub struct ChatCompletionResponse {
    /// The ID of the completion.
    pub id: String,
    /// The type of object (always "chat.completion").
    pub object: String,
    /// The timestamp of the completion (Unix timestamp in seconds).
    pub created: u64,
    /// The model used for the completion.
    pub model: String,
    /// The generated choices.
    pub choices: Vec<ChatCompletionChoice>,
    /// Usage statistics for the completion.
    pub usage: Option<UsageInfo>,
}

/// Request for a text completion.
#[derive(Debug)]
pub struct TextCompletionRequest {
    /// The model to use for the completion.
    pub model: String,
    /// The prompt to generate a completion for.
    pub prompt: String,
    /// The maximum number of tokens to generate.
    pub max_tokens: Option<u32>,
    /// The sampling temperature, in thousandths (0..=2000).
    pub temperature: Option<u32>,
    /// The nucleus sampling parameter, in thousandths (0..=1000).
    pub top_p: Option<u32>,
    /// Whether to stream the response.
    pub stream: Option<bool>,
    /// Additional model-specific parameters, as raw key/value text.
    pub additional_params: Vec<(String, String)>,
}

/// A text completion choice.
#[derive(Debug)]
pub struct TextCompletionChoice {
    /// The index of this choice.
    pub index: usize,
    /// The generated text.
    pub text: String,
    /// The reason the generation stopped.
    pub finish_reason: Option<String>,
}

/// Response from a text completion request.
#[derive(Debug)]
pub struct TextCompletionResponse {
    /// The ID of the completion.
    pub id: String,
    /// The type of object (always "text_completion").
    pub object: String,
    /// The timestamp of the completion (Unix timestamp in seconds).
    pub created: u64,
    /// The model used for the completion.
    pub model: String,
    /// The generated choices.
    pub choices: Vec<TextCompletionChoice>,
    /// Usage statistics for the completion.
    pub usage: Option<UsageInfo>,
}

/// Request for generating embeddings.
#[derive(Debug)]
pub struct EmbeddingRequest {
    /// The model to use for the embeddings.
    pub model: String,
    /// The inputs to generate embeddings for.
    pub input: Vec<String>,
    /// Additional model-specific parameters, as raw key/value text.
    pub additional_params: Vec<(String, String)>,
}

/// A single embedding result.
#[derive(Debug)]
pub struct EmbeddingData {
    /// The index of this embedding.
    pub index: usize,
    /// The embedding vector, one 32-bit encoding bit pattern per component.
    pub embedding: Vec<u32>,
}

/// Response from an embedding request.
#[derive(Debug)]
pub struct EmbeddingResponse {
    /// The type of object (always "list").
    pub object: String,
    /// The model used for the embeddings.
    pub model: String,
    /// The generated embeddings.
    pub data: Vec<EmbeddingData>,
    /// Usage statistics for the embeddings.
    pub usage: Option<UsageInfo>,
}

/// Usage information for a request.
#[derive(Clone, Copy, PartialEq, Eq, Structural, Debug)]
pub struct UsageInfo {
    /// The number of prompt tokens used.
    pub prompt_tokens: u32,
    /// The number of completion tokens used.
    pub completion_tokens: u32,
    /// The total number of tokens used.
    pub total_tokens: u32,
}

/// A unified request type that can represent any inference operation.
#[derive(Debug)]
pub enum LlmRequest {
    ChatCompletion(ChatCompletionRequest),
    TextCompletion(TextCompletionRequest),
    Embedding(EmbeddingRequest),
}

/// A unified response type that can represent any inference result.
#[derive(Debug)]
pub enum LlmResponse {
    ChatCompletion(ChatCompletionResponse),
    TextCompletion(TextCompletionResponse),
    Embedding(EmbeddingResponse),
}

impl LlmRequest {
    /// The model name the request targets, as a sequence of characters.
    pub open spec fn spec_model(&self) -> Seq<char> {
        match self {
            LlmRequest::ChatCompletion(req) => req.model@,
            LlmRequest::TextCompletion(req) => req.model@,
            LlmRequest::Embedding(req) => req.model@,
        }
    }

    /// Whether the caller asked for a streamed response.
    pub open spec fn spec_wants_streaming(&self) -> bool {
        match self {
            LlmRequest::ChatCompletion(req) => req.stream == Some(true),
            LlmRequest::TextCompletion(req) => req.stream == Some(true),
            LlmRequest::Embedding(_) => false,
        }
    }

    /// The model name the request targets.
    pub fn model(&self) -> (r: &String)
        ensures
            r@ == self.spec_model(),
    {
        match self {
            LlmRequest::ChatCompletion(req) => &req.model,
            LlmRequest::TextCompletion(req) => &req.model,
            LlmRequest::Embedding(req) => &req.model,
        }
    }

    /// Whether the caller asked for a streamed response; embedding requests
    /// never stream.
    pub fn wants_streaming(&self) -> (r: bool)
        ensures
            r == self.spec_wants_streaming(),
    {
        match self {
            LlmRequest::ChatCompletion(req) => req.stream == Some(true),
            LlmRequest::TextCompletion(req) => req.stream == Some(true),
            LlmRequest::Embedding(_) => false,
        }
    }
}

} // verus!
