use open_router_core::llm::LlmError;
use open_router_core::local_llm::{BackendClient, LocalLlmClient, LocalLlmConfig, RemoteBackend, EngineKind};
use open_router_core::models::{
    ChatCompletionRequest, ChatMessage, EmbeddingRequest, TextCompletionRequest,
};

fn chat_request(model: &str) -> ChatCompletionRequest {
    ChatCompletionRequest {
        model: model.to_string(),
        messages: vec![ChatMessage {
            role: "user".to_string(),
            content: "Hello, who are you?".to_string(),
            name: None,
        }],
        max_tokens: None,
        temperature: None,
        top_p: None,
        stream: None,
        additional_params: Vec::new(),
    }
}

#[test]
fn local_client_starts_with_zero_metrics() {
    let client = LocalLlmClient::new(LocalLlmConfig::default());
    let metrics = client.get_metrics();
    assert_eq!(metrics.cpu_utilization, 0);
    assert_eq!(metrics.memory_utilization, 0);
    assert_eq!(metrics.gpu_utilization, None);
    assert_eq!(metrics.requests_per_minute, 0);
    assert_eq!(metrics.average_response_time_ms, 0);
    assert_eq!(metrics.active_requests, 0);
}

#[test]
fn local_client_lists_configured_models() {
    let client = LocalLlmClient::new(LocalLlmConfig::default());
    let models = client.get_supported_models();
    assert_eq!(models.len(), 3);
    assert_eq!(models[0].id, "gpt-3.5-turbo");
    assert_eq!(models[1].id, "text-davinci-003");
    assert_eq!(models[2].id, "text-embedding-ada-002");
    let caps = client.get_capabilities();
    assert!(!caps.supports_streaming);
    assert_eq!(caps.max_concurrent_requests, 5);
}

#[test]
fn chat_completion_answers_supported_models() {
    let mut client = LocalLlmClient::new(LocalLlmConfig::default());
    let resp = client.chat_completion(chat_request("gpt-3.5-turbo")).unwrap();
    assert_eq!(resp.model, "gpt-3.5-turbo");
    assert_eq!(resp.object, "chat.completion");
    assert_eq!(resp.id.len(), 36);
    assert!(resp.choices.is_empty());
    assert!(resp.usage.is_none());
    // The call is counted and the in-flight count returns to zero.
    let metrics = client.get_metrics();
    assert_eq!(metrics.active_requests, 0);
    assert_eq!(metrics.requests_per_minute, 1);
}

#[test]
fn chat_completion_rejects_unknown_models() {
    let mut client = LocalLlmClient::new(LocalLlmConfig::default());
    match client.chat_completion(chat_request("not-a-real-model")) {
        Err(LlmError::ModelNotSupported(m)) => assert_eq!(m, "not-a-real-model"),
        _ => panic!("expected ModelNotSupported"),
    }
    // A rejected request leaves the metrics untouched.
    assert_eq!(client.get_metrics().requests_per_minute, 0);
}

#[test]
fn text_completion_answers_and_rejects_like_chat() {
    let mut client = LocalLlmClient::new(LocalLlmConfig::default());
    let req = TextCompletionRequest {
        model: "text-davinci-003".to_string(),
        prompt: "Once upon a time".to_string(),
        max_tokens: None,
        temperature: None,
        top_p: None,
        stream: None,
        additional_params: Vec::new(),
    };
    let resp = client.text_completion(req).unwrap();
    assert_eq!(resp.object, "text_completion");
    assert_eq!(resp.model, "text-davinci-003");
    // The completed call is counted and the in-flight count returns to zero.
    assert_eq!(client.get_metrics().requests_per_minute, 1);
    assert_eq!(client.get_metrics().active_requests, 0);

    let bad = TextCompletionRequest {
        model: "missing".to_string(),
        prompt: "x".to_string(),
        max_tokens: None,
        temperature: None,
        top_p: None,
        stream: None,
        additional_params: Vec::new(),
    };
    assert!(matches!(
        client.text_completion(bad),
        Err(LlmError::ModelNotSupported(_))
    ));
}

#[test]
fn embeddings_answer_with_empty_data() {
    let mut client = LocalLlmClient::new(LocalLlmConfig::default());
    let req = EmbeddingRequest {
        model: "text-embedding-ada-002".to_string(),
        input: vec!["Hello, world!".to_string()],
        additional_params: Vec::new(),
    };
    let resp = client.embeddings(req).unwrap();
    assert_eq!(resp.object, "list");
    assert_eq!(resp.model, "text-embedding-ada-002");
    assert!(resp.data.is_empty());
    // The completed call is counted and the in-flight count returns to zero.
    assert_eq!(client.get_metrics().requests_per_minute, 1);
    assert_eq!(client.get_metrics().active_requests, 0);
}

#[test]
fn update_metrics_overwrites_utilization_only() {
    let mut client = LocalLlmClient::new(LocalLlmConfig::default());
    client.update_metrics(2500, 5000, Some(7500));
    let metrics = client.get_metrics();
    assert_eq!(metrics.cpu_utilization, 2500);
    assert_eq!(metrics.memory_utilization, 5000);
    assert_eq!(metrics.gpu_utilization, Some(7500));
    assert_eq!(metrics.requests_per_minute, 0);
    assert_eq!(metrics.active_requests, 0);
}

#[test]
fn streaming_support_comes_from_the_capability_record() {
    let local = BackendClient::Local(LocalLlmClient::new(LocalLlmConfig::default()));
    assert!(!local.supports_streaming());

    let remote = BackendClient::Remote(RemoteBackend {
        engine: EngineKind::Vllm,
        api_url: "http://localhost:8000".to_string(),
        models: Vec::new(),
        capabilities: open_router_core::adapters::vllm_capabilities(),
        metrics: local.get_metrics(),
    });
    assert!(remote.supports_streaming());
}
