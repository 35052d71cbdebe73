use open_router_core::models::{
    ChatCompletionRequest, EmbeddingRequest, LlmRequest, TextCompletionRequest,
};
use open_router_core::text::{contains_substr, eq_ignore_ascii_case, parse_bool, parse_u64, str_eq};

#[test]
fn parse_u64_accepts_exactly_well_formed_numerals() {
    assert_eq!(parse_u64("0"), Some(0));
    assert_eq!(parse_u64("123"), Some(123));
    assert_eq!(parse_u64("007"), Some(7));
    assert_eq!(parse_u64("18446744073709551615"), Some(u64::MAX));
    assert_eq!(parse_u64("18446744073709551616"), None);
    assert_eq!(parse_u64(""), None);
    assert_eq!(parse_u64("12a"), None);
    assert_eq!(parse_u64("-5"), None);
    assert_eq!(parse_u64("+5"), None);
}

#[test]
fn parse_bool_accepts_exactly_true_and_false() {
    assert_eq!(parse_bool("true"), Some(true));
    assert_eq!(parse_bool("false"), Some(false));
    assert_eq!(parse_bool("True"), None);
    assert_eq!(parse_bool(""), None);
}

#[test]
fn string_comparisons_behave_as_specified() {
    assert!(str_eq("abc", "abc"));
    assert!(!str_eq("abc", "abd"));
    assert!(!str_eq("abc", "ab"));
    assert!(eq_ignore_ascii_case("Round_Robin", "round_robin"));
    assert!(eq_ignore_ascii_case("ABC", "abc"));
    assert!(!eq_ignore_ascii_case("abc", "abd"));
    assert!(contains_substr("model not found: x", "model not found"));
    assert!(contains_substr("abc", ""));
    assert!(!contains_substr("ab", "abc"));
}

#[test]
fn unified_requests_expose_model_and_streaming_flag() {
    let chat = LlmRequest::ChatCompletion(ChatCompletionRequest {
        model: "gpt-3.5-turbo".to_string(),
        messages: Vec::new(),
        max_tokens: Some(100),
        temperature: None,
        top_p: None,
        stream: Some(true),
        additional_params: Vec::new(),
    });
    assert_eq!(chat.model(), "gpt-3.5-turbo");
    assert!(chat.wants_streaming());

    let text = LlmRequest::TextCompletion(TextCompletionRequest {
        model: "text-davinci-003".to_string(),
        prompt: "Once upon a time".to_string(),
        max_tokens: Some(100),
        temperature: None,
        top_p: None,
        stream: None,
        additional_params: Vec::new(),
    });
    assert_eq!(text.model(), "text-davinci-003");
    assert!(!text.wants_streaming());

    let embedding = LlmRequest::Embedding(EmbeddingRequest {
        model: "text-embedding-ada-002".to_string(),
        input: vec!["The quick brown fox jumps over the lazy dog".to_string()],
        additional_params: Vec::new(),
    });
    assert_eq!(embedding.model(), "text-embedding-ada-002");
    assert!(!embedding.wants_streaming());
}
