use open_router_core::adapters::{
    chat_request_from_text, classify_error_status, classify_send_error,
    embeddings_not_implemented, ollama_capabilities, ollama_chat_response, probe_model_listing,
    prompt_from_messages, text_response_from_chat, vllm_capabilities,
};
use open_router_core::llm::LlmError;
use open_router_core::models::{ChatMessage, TextCompletionRequest};

#[test]
fn probe_listing_reflects_availability() {
    let listed = probe_model_listing("llama3", true);
    assert_eq!(listed.len(), 1);
    assert_eq!(listed[0].id, "llama3");
    assert_eq!(listed[0].name, "llama3");
    assert_eq!(listed[0].max_context_length, 4096);
    assert!(listed[0].supports_chat);
    assert!(listed[0].supports_text);
    assert!(!listed[0].supports_embeddings);

    assert!(probe_model_listing("llama3", false).is_empty());
}

#[test]
fn engine_capabilities_differ_by_flavour() {
    let ollama = ollama_capabilities();
    assert!(!ollama.supports_streaming);
    assert_eq!(ollama.max_concurrent_requests, 1);
    assert!(!ollama.supports_batching);

    let vllm = vllm_capabilities();
    assert!(vllm.supports_streaming);
    assert_eq!(vllm.max_concurrent_requests, 4);
    assert!(vllm.supports_batching);
}

#[test]
fn prompt_joins_messages_with_blank_lines() {
    let messages = vec![
        ChatMessage {
            role: "system".to_string(),
            content: "You are a helpful assistant.".to_string(),
            name: None,
        },
        ChatMessage {
            role: "user".to_string(),
            content: "Hello, how are you?".to_string(),
            name: None,
        },
    ];
    let prompt = prompt_from_messages(&messages);
    assert_eq!(
        prompt,
        "system:\nYou are a helpful assistant.\n\nuser:\nHello, how are you?"
    );
    assert_eq!(prompt_from_messages(&Vec::new()), "");
}

#[test]
fn send_errors_are_classified_by_their_text() {
    match classify_send_error("model not found: llama3".to_string()) {
        LlmError::ModelNotSupported(m) => assert_eq!(m, "model not found: llama3"),
        _ => panic!("expected ModelNotSupported"),
    }
    match classify_send_error("connection refused".to_string()) {
        LlmError::RequestFailed(m) => assert_eq!(m, "connection refused"),
        _ => panic!("expected RequestFailed"),
    }
}

#[test]
fn error_replies_are_classified_by_status_and_body() {
    assert!(matches!(
        classify_error_status(404, "gone".to_string()),
        LlmError::ModelNotSupported(_)
    ));
    assert!(matches!(
        classify_error_status(400, "bad".to_string()),
        LlmError::ModelNotSupported(_)
    ));
    assert!(matches!(
        classify_error_status(500, "failed to load llama3".to_string()),
        LlmError::ModelNotSupported(_)
    ));
    assert!(matches!(
        classify_error_status(500, "oom".to_string()),
        LlmError::RequestFailed(_)
    ));
}

#[test]
fn text_requests_convert_to_single_user_chats() {
    let req = TextCompletionRequest {
        model: "llama3".to_string(),
        prompt: "Write a haiku about code.".to_string(),
        max_tokens: Some(50),
        temperature: None,
        top_p: None,
        stream: None,
        additional_params: Vec::new(),
    };
    let chat = chat_request_from_text(req);
    assert_eq!(chat.model, "llama3");
    assert_eq!(chat.messages.len(), 1);
    assert_eq!(chat.messages[0].role, "user");
    assert_eq!(chat.messages[0].content, "Write a haiku about code.");
}

#[test]
fn chat_responses_convert_back_to_text() {
    let chat = ollama_chat_response("llama3".to_string(), "A haiku.".to_string(), 42);
    assert_eq!(chat.id.len(), 36);
    assert_eq!(chat.created, 42);
    assert_eq!(chat.model, "llama3");
    assert_eq!(chat.choices.len(), 1);
    assert_eq!(chat.choices[0].message.role, "assistant");
    assert_eq!(chat.choices[0].message.content, "A haiku.");
    assert_eq!(chat.choices[0].finish_reason.as_deref(), Some("stop"));

    let text = text_response_from_chat(chat);
    assert_eq!(text.choices.len(), 1);
    assert_eq!(text.choices[0].text, "A haiku.");
    assert_eq!(text.choices[0].finish_reason.as_deref(), Some("stop"));
    assert_eq!(text.model, "llama3");
    assert!(text.usage.is_none());
}

#[test]
fn embeddings_refusal_is_deliberate() {
    match embeddings_not_implemented() {
        LlmError::NotImplemented(m) => {
            assert_eq!(m, "embeddings not implemented for this engine")
        }
        _ => panic!("expected NotImplemented"),
    }
}
