use open_router_core::llm::LlmError;
use open_router_core::streaming::{
    collect_chat_completion_stream, collect_text_completion_stream, ChatCompletionChunk,
    ChatCompletionStreamChoice, ChatMessageDelta, TextCompletionChunk,
    TextCompletionStreamChoice,
};

fn chat_chunk(choices: Vec<ChatCompletionStreamChoice>) -> ChatCompletionChunk {
    ChatCompletionChunk {
        id: "chunk".to_string(),
        object: "chat.completion.chunk".to_string(),
        created: 0,
        model: "m".to_string(),
        choices,
    }
}

fn chat_choice(
    index: usize,
    role: Option<&str>,
    content: Option<&str>,
    finish: Option<&str>,
) -> ChatCompletionStreamChoice {
    ChatCompletionStreamChoice {
        index,
        delta: ChatMessageDelta {
            role: role.map(|s| s.to_string()),
            content: content.map(|s| s.to_string()),
        },
        finish_reason: finish.map(|s| s.to_string()),
    }
}

fn text_chunk(choices: Vec<TextCompletionStreamChoice>) -> TextCompletionChunk {
    TextCompletionChunk {
        id: "chunk".to_string(),
        object: "text_completion.chunk".to_string(),
        created: 0,
        model: "m".to_string(),
        choices,
    }
}

fn text_choice(index: usize, text: &str, finish: Option<&str>) -> TextCompletionStreamChoice {
    TextCompletionStreamChoice {
        index,
        text: text.to_string(),
        finish_reason: finish.map(|s| s.to_string()),
    }
}

#[test]
fn single_chunk_stream_yields_its_content() {
    let items = vec![Ok(chat_chunk(vec![chat_choice(0, Some("assistant"), Some("Hi"), None)]))];
    let resp = collect_chat_completion_stream(items, 1234).unwrap();
    assert_eq!(resp.choices.len(), 1);
    assert_eq!(resp.choices[0].message.content, "Hi");
    assert_eq!(resp.choices[0].message.role, "assistant");
    assert_eq!(resp.choices[0].index, 0);
}

#[test]
fn empty_stream_fails_with_request_failed() {
    let resp = collect_chat_completion_stream(Vec::new(), 0);
    match resp {
        Err(LlmError::RequestFailed(m)) => assert_eq!(m, "Empty stream"),
        _ => panic!("expected RequestFailed for an empty stream"),
    }
}

#[test]
fn chat_stream_concatenates_deltas_in_order() {
    let items = vec![
        Ok(chat_chunk(vec![chat_choice(0, Some("assistant"), Some("He"), None)])),
        Ok(chat_chunk(vec![chat_choice(0, None, Some("llo"), None)])),
        Ok(chat_chunk(vec![chat_choice(0, None, Some(" there"), Some("stop"))])),
    ];
    let resp = collect_chat_completion_stream(items, 99).unwrap();
    assert_eq!(resp.choices.len(), 1);
    assert_eq!(resp.choices[0].message.content, "Hello there");
    assert_eq!(resp.choices[0].finish_reason.as_deref(), Some("stop"));
    assert_eq!(resp.id, "stream-collected");
    assert_eq!(resp.object, "chat.completion");
    assert_eq!(resp.model, "unknown");
    assert_eq!(resp.created, 99);
    assert!(resp.usage.is_none());
}

#[test]
fn chat_stream_defaults_role_to_assistant() {
    let items = vec![Ok(chat_chunk(vec![chat_choice(0, None, Some("x"), None)]))];
    let resp = collect_chat_completion_stream(items, 0).unwrap();
    assert_eq!(resp.choices[0].message.role, "assistant");
}

#[test]
fn chat_stream_tracks_choices_by_index() {
    let items = vec![
        Ok(chat_chunk(vec![
            chat_choice(0, Some("assistant"), Some("a"), None),
            chat_choice(1, Some("assistant"), Some("b"), None),
        ])),
        // Deltas may arrive in any per-choice order.
        Ok(chat_chunk(vec![
            chat_choice(1, None, Some("2"), None),
            chat_choice(0, None, Some("1"), None),
        ])),
        // A choice the first chunk never announced is ignored.
        Ok(chat_chunk(vec![chat_choice(7, None, Some("zzz"), None)])),
    ];
    let resp = collect_chat_completion_stream(items, 0).unwrap();
    assert_eq!(resp.choices.len(), 2);
    assert_eq!(resp.choices[0].index, 0);
    assert_eq!(resp.choices[0].message.content, "a1");
    assert_eq!(resp.choices[1].index, 1);
    assert_eq!(resp.choices[1].message.content, "b2");
}

#[test]
fn chat_stream_finish_reason_last_write_wins() {
    let items = vec![
        Ok(chat_chunk(vec![chat_choice(0, None, Some("x"), Some("length"))])),
        Ok(chat_chunk(vec![chat_choice(0, None, None, Some("stop"))])),
    ];
    let resp = collect_chat_completion_stream(items, 0).unwrap();
    assert_eq!(resp.choices[0].finish_reason.as_deref(), Some("stop"));
}

#[test]
fn chat_stream_fails_with_first_error() {
    let items = vec![
        Ok(chat_chunk(vec![chat_choice(0, None, Some("x"), None)])),
        Err(LlmError::Timeout(500)),
        Err(LlmError::Internal("later".to_string())),
    ];
    match collect_chat_completion_stream(items, 0) {
        Err(LlmError::Timeout(ms)) => assert_eq!(ms, 500),
        _ => panic!("expected the first stream error"),
    }
}

#[test]
fn empty_text_stream_fails_with_request_failed() {
    match collect_text_completion_stream(Vec::new(), 0) {
        Err(LlmError::RequestFailed(m)) => assert_eq!(m, "Empty stream"),
        _ => panic!("expected RequestFailed for an empty stream"),
    }
}

#[test]
fn text_stream_concatenates_text_in_order() {
    let items = vec![
        Ok(text_chunk(vec![text_choice(0, "Once", None)])),
        Ok(text_chunk(vec![text_choice(0, " upon", None)])),
        Ok(text_chunk(vec![text_choice(0, " a time", Some("stop"))])),
    ];
    let resp = collect_text_completion_stream(items, 7).unwrap();
    assert_eq!(resp.choices.len(), 1);
    assert_eq!(resp.choices[0].text, "Once upon a time");
    assert_eq!(resp.choices[0].finish_reason.as_deref(), Some("stop"));
    assert_eq!(resp.object, "text_completion");
    assert_eq!(resp.created, 7);
    assert!(resp.usage.is_none());
}

#[test]
fn text_stream_fails_with_first_error() {
    let items = vec![
        Err(LlmError::RequestFailed("boom".to_string())),
        Ok(text_chunk(vec![text_choice(0, "x", None)])),
    ];
    match collect_text_completion_stream(items, 0) {
        Err(LlmError::RequestFailed(m)) => assert_eq!(m, "boom"),
        _ => panic!("expected the first stream error"),
    }
}
