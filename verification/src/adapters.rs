//! The compute half of the HTTP engine adapters: prompt shaping, error
//! classification by status and message text, and conversions between the
//! chat and text request/response shapes.
//!
//! The adapters' wire traffic (sending requests, decoding bodies) lives
//! outside this library; these functions take and return the plain values
//! around it.

use vstd::prelude::*;
use vstd::string::StringExecFns;

use crate::llm::{LlmCapabilities, LlmError, ModelInfo};
use crate::models::{
    ChatCompletionChoice, ChatCompletionRequest, ChatCompletionResponse, ChatMessage,
    TextCompletionChoice, TextCompletionRequest, TextCompletionResponse,
};
use crate::text::{seq_contains, contains_substr};

verus! {

/// The model listing an engine probe yields: the probed model alone when the
/// engine knows it, and nothing otherwise.
pub fn probe_model_listing(model: &str, available: bool) -> (r: Vec<ModelInfo>)
    ensures
        !available ==> r@.len() == 0,
        available ==> {
            &&& r@.len() == 1
            &&& r@[0].id@ == model@
            &&& r@[0].name@ == model@
            &&& r@[0].max_context_length == 4096
            &&& r@[0].supports_chat
            &&& r@[0].supports_text
            &&& !r@[0].supports_embeddings
            &&& r@[0].parameters@.len() == 0
        },
{
    let mut out: Vec<ModelInfo> = Vec::new();
    if available {
        out.push(
            ModelInfo {
                id: model.to_owned(),
                name: model.to_owned(),
                max_context_length: 4096,
                supports_chat: true,
                supports_text: true,
                supports_embeddings: false,
                parameters: Vec::new(),
            },
        );
    }
    out
}

/// The static capabilities of the first HTTP engine flavour: one request at
/// a time, no streaming, no batching.
pub fn ollama_capabilities() -> (r: LlmCapabilities)
    ensures
        !r.supports_streaming,
        r.max_concurrent_requests == 1,
        !r.supports_batching,
        r.features@.len() == 0,
{
    LlmCapabilities {
        supports_streaming: false,
        max_concurrent_requests: 1,
        supports_batching: false,
        features: Vec::new(),
    }
}

/// The static capabilities of the second HTTP engine flavour: four
/// concurrent requests, streaming and batching.
pub fn vllm_capabilities() -> (r: LlmCapabilities)
    ensures
        r.supports_streaming,
        r.max_concurrent_requests == 4,
        r.supports_batching,
        r.features@.len() == 0,
{
    LlmCapabilities {
        supports_streaming: true,
        max_concurrent_requests: 4,
        supports_batching: true,
        features: Vec::new(),
    }
}

/// One chat message rendered as a prompt block: the role, a colon and line
/// break, then the content.
pub open spec fn message_block(m: ChatMessage) -> Seq<char> {
    m.role@ + ":\n"@ + m.content@
}

/// The whole conversation rendered as one prompt: the message blocks joined
/// by blank lines.
pub open spec fn prompt_of(ms: Seq<ChatMessage>) -> Seq<char>
    decreases ms.len(),
{
    if ms.len() == 0 {
        Seq::empty()
    } else if ms.len() == 1 {
        message_block(ms[0])
    } else {
        prompt_of(ms.drop_last()) + "\n\n"@ + message_block(ms.last())
    }
}

/// Render a conversation as a single prompt string for an engine that takes
/// plain text.
pub fn prompt_from_messages(messages: &Vec<ChatMessage>) -> (r: String)
    ensures
        r@ == prompt_of(messages@),
{
    let mut out = String::new();
    let mut i: usize = 0;
    while i < messages.len()
        invariant
            i <= messages@.len(),
            out@ == prompt_of(messages@.take(i as int)),
        decreases messages@.len() - i,
    {
        proof {
            assert(messages@.take(i + 1).drop_last() =~= messages@.take(i as int));
        }
        if i > 0 {
            out.append("\n\n");
        }
        out.append(messages[i].role.as_str());
        out.append(":\n");
        out.append(messages[i].content.as_str());
        proof {
            assert(out@ =~= prompt_of(messages@.take(i + 1)));
        }
        i += 1;
    }
    proof {
        assert(messages@.take(messages@.len() as int) =~= messages@);
    }
    out
}

/// Whether an engine's complaint means the model itself is missing, rather
/// than a transient transport failure.
pub open spec fn is_missing_model_text(msg: Seq<char>) -> bool {
    seq_contains(msg, "model not found"@) || seq_contains(msg, "failed to load model"@)
}

/// Classify the text of a failed send: a complaint about a missing model
/// becomes `ModelNotSupported`, anything else `RequestFailed`, each carrying
/// the text.
pub fn classify_send_error(msg: String) -> (r: LlmError)
    ensures
        is_missing_model_text(msg@) ==> (r matches LlmError::ModelNotSupported(m) && m@ == msg@),
        !is_missing_model_text(msg@) ==> (r matches LlmError::RequestFailed(m) && m@ == msg@),
{
    if contains_substr(msg.as_str(), "model not found") || contains_substr(
        msg.as_str(),
        "failed to load model",
    ) {
        LlmError::ModelNotSupported(msg)
    } else {
        LlmError::RequestFailed(msg)
    }
}

/// Whether a non-success engine reply means the model is missing: a 404 or
/// 400 status, or a body complaining about the model.
pub open spec fn is_missing_model_reply(status: u16, body: Seq<char>) -> bool {
    ||| status == 404
    ||| status == 400
    ||| seq_contains(body, "model not found"@)
    ||| seq_contains(body, "failed to load"@)
}

/// Classify a non-success engine reply by its status code and body text.
pub fn classify_error_status(status: u16, body: String) -> (r: LlmError)
    ensures
        is_missing_model_reply(status, body@) ==> (r matches LlmError::ModelNotSupported(m) && m@
            == body@),
        !is_missing_model_reply(status, body@) ==> (r matches LlmError::RequestFailed(m) && m@
            == body@),
{
    if status == 404 || status == 400 || contains_substr(body.as_str(), "model not found")
        || contains_substr(body.as_str(), "failed to load") {
        LlmError::ModelNotSupported(body)
    } else {
        LlmError::RequestFailed(body)
    }
}

/// Recast a text completion request as a chat request with one user
/// message, for an engine on which the two are equivalent.
pub fn chat_request_from_text(request: TextCompletionRequest) -> (r: ChatCompletionRequest)
    ensures
        r.model == request.model,
        r.messages@.len() == 1,
        r.messages@[0].role@ == "user"@,
        r.messages@[0].content == request.prompt,
        r.messages@[0].name is None,
        r.max_tokens is None,
        r.temperature is None,
        r.top_p is None,
        r.stream is None,
        r.additional_params@.len() == 0,
{
    let mut messages: Vec<ChatMessage> = Vec::new();
    messages.push(
        ChatMessage { role: "user".to_owned(), content: request.prompt, name: None },
    );
    ChatCompletionRequest {
        model: request.model,
        messages,
        max_tokens: None,
        temperature: None,
        top_p: None,
        stream: None,
        additional_params: Vec::new(),
    }
}

/// Recast a chat completion response as a text response, carrying the first
/// choice's content; the response must carry at least one choice.
pub fn text_response_from_chat(resp: ChatCompletionResponse) -> (r: TextCompletionResponse)
    requires
        resp.choices@.len() >= 1,
    ensures
        r.id == resp.id,
        r.object == resp.object,
        r.created == resp.created,
        r.model == resp.model,
        r.choices@.len() == 1,
        r.choices@[0].index == 0,
        r.choices@[0].text == resp.choices@[0].message.content,
        r.choices@[0].finish_reason == resp.choices@[0].finish_reason,
        r.usage is None,
{
    let mut resp_choices = resp.choices;
    let first = resp_choices.remove(0);
    let mut choices: Vec<TextCompletionChoice> = Vec::new();
    choices.push(
        TextCompletionChoice {
            index: 0,
            text: first.message.content,
            finish_reason: first.finish_reason,
        },
    );
    TextCompletionResponse {
        id: resp.id,
        object: resp.object,
        created: resp.created,
        model: resp.model,
        choices,
        usage: None,
    }
}

/// Assemble the response for a successful plain-text engine reply: one
/// assistant choice carrying the engine's text, finished with "stop", under
/// a fresh request id.
pub fn ollama_chat_response(model: String, response_text: String, now_unix: u64) -> (r:
    ChatCompletionResponse)
    ensures
        r.id@.len() == 36,
        r.object@ == "chat.completion"@,
        r.created == now_unix,
        r.model == model,
        r.choices@.len() == 1,
        r.choices@[0].index == 0,
        r.choices@[0].message.role@ == "assistant"@,
        r.choices@[0].message.content == response_text,
        r.choices@[0].message.name is None,
        r.choices@[0].finish_reason matches Some(f) && f@ == "stop"@,
        r.usage is None,
{
    let mut choices: Vec<ChatCompletionChoice> = Vec::new();
    choices.push(
        ChatCompletionChoice {
            index: 0,
            message: ChatMessage {
                role: "assistant".to_owned(),
                content: response_text,
                name: None,
            },
            finish_reason: Some("stop".to_owned()),
        },
    );
    ChatCompletionResponse {
        id: crate::local_llm::fresh_request_id(),
        object: "chat.completion".to_owned(),
        created: now_unix,
        model,
        choices,
        usage: None,
    }
}


/// The answer both HTTP engine flavours give to an embeddings request: a
/// deliberate refusal, distinguishable from a transient failure.
pub fn embeddings_not_implemented() -> (r: LlmError)
    ensures
        r matches LlmError::NotImplemented(m) && m@ == "embeddings not implemented for this engine"@,
{
    LlmError::NotImplemented("embeddings not implemented for this engine".to_owned())
}

} // verus!
