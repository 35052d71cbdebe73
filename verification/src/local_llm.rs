//! The local stand-in backend client, and the closed union of backend
//! variants that the node registry selects over.
//!
//! The local client answers every supported request with a well-formed empty
//! response and keeps its own metrics: it increments `active_requests` around
//! each call, folds the observed duration into an exponential moving average
//! of the response time, and counts requests. HTTP-based engines participate
//! through [`RemoteBackend`], which carries their cached model listing,
//! capabilities and metrics as plain values; their wire traffic lives outside
//! this library.

use vstd::prelude::*;

use crate::llm::{
    eq_capabilities, eq_models, spec_models_include, LlmCapabilities, LlmError, ModelInfo,
    NodeMetrics,
};
use crate::models::{
    ChatCompletionRequest, ChatCompletionResponse, EmbeddingRequest, EmbeddingResponse,
    TextCompletionRequest, TextCompletionResponse,
};

verus! {

/// Relies on uuid::Uuid::new_v4 and the hyphenated form of its `Display`
/// implementation: a fresh random identifier always renders as 36 characters.
/// Nothing else is promised of the value.
#[verifier::external_body]
pub(crate) fn fresh_request_id() -> (r: String)
    ensures
        r@.len() == 36,
{
    uuid::Uuid::new_v4().to_string()
}

/// Relies on std::time::SystemTime::now: the wall clock as milliseconds since
/// the Unix epoch, truncated to 64 bits. Nothing is promised of the value; in
/// particular two reads need not be ordered.
#[verifier::external_body]
fn unix_time_millis() -> u64 {
    std::time::SystemTime::now()
        .duration_since(std::time::UNIX_EPOCH)
        .unwrap_or_default()
        .as_millis() as u64
}

/// Configuration for a local backend client.
#[derive(Debug)]
pub struct LocalLlmConfig {
    /// The base URL of the engine the client stands for.
    pub api_url: String,
    /// The timeout for requests, in seconds.
    pub timeout_seconds: u64,
    /// The maximum number of concurrent requests.
    pub max_concurrent_requests: usize,
    /// The models available on this instance.
    pub models: Vec<ModelInfo>,
    /// Additional configuration parameters.
    pub additional_params: Vec<(String, String)>,
}

/// Whether two local configurations agree field for field.
pub open spec fn eq_local_config(a: LocalLlmConfig, b: LocalLlmConfig) -> bool {
    &&& a.api_url@ == b.api_url@
    &&& a.timeout_seconds == b.timeout_seconds
    &&& a.max_concurrent_requests == b.max_concurrent_requests
    &&& eq_models(a.models@, b.models@)
    &&& a.additional_params@ == b.additional_params@
}

impl Clone for LocalLlmConfig {
    /// Clone agreeing with the original field for field.
    fn clone(&self) -> (r: Self)
        ensures
            eq_local_config(r, *self),
    {
        LocalLlmConfig {
            api_url: self.api_url.clone(),
            timeout_seconds: self.timeout_seconds,
            max_concurrent_requests: self.max_concurrent_requests,
            models: crate::llm::clone_models(&self.models),
            additional_params: crate::llm::clone_string_pairs(&self.additional_params),
        }
    }
}

impl Default for LocalLlmConfig {
    /// The default local configuration: the stock model set behind a local
    /// endpoint.
    fn default() -> (r: Self)
        ensures
            r.api_url@ == "http://localhost:8000"@,
            r.timeout_seconds == 60,
            r.max_concurrent_requests == 5,
            crate::config::is_default_models(r.models@),
            r.additional_params@.len() == 0,
    {
        LocalLlmConfig {
            api_url: "http://localhost:8000".to_owned(),
            timeout_seconds: 60,
            max_concurrent_requests: 5,
            models: crate::config::default_models(),
            additional_params: Vec::new(),
        }
    }
}

/// The exponential moving average of the response time, with a smoothing
/// factor of one tenth: nine parts old value, one part new observation.
pub open spec fn spec_ema(old_avg: u64, observed_ms: u64) -> u64 {
    ((old_avg * 9 + observed_ms) / 10) as u64
}

/// A client standing for a locally hosted engine.
///
/// It validates the model of each request against its configured listing and
/// answers with a well-formed empty completion, keeping its metrics as the
/// capability contract asks.
#[derive(Debug)]
pub struct LocalLlmClient {
    /// The configuration for this client.
    pub config: LocalLlmConfig,
    /// The latest metrics snapshot for this client.
    pub metrics: NodeMetrics,
}

impl LocalLlmClient {
    /// Create a new local client with the given configuration; metrics start
    /// at zero with a fresh timestamp.
    pub fn new(config: LocalLlmConfig) -> (r: Self)
        ensures
            r.config == config,
            r.metrics.cpu_utilization == 0,
            r.metrics.memory_utilization == 0,
            r.metrics.gpu_utilization is None,
            r.metrics.requests_per_minute == 0,
            r.metrics.average_response_time_ms == 0,
            r.metrics.active_requests == 0,
    {
        let now = unix_time_millis();
        LocalLlmClient {
            config,
            metrics: NodeMetrics {
                cpu_utilization: 0,
                memory_utilization: 0,
                gpu_utilization: None,
                requests_per_minute: 0,
                average_response_time_ms: 0,
                active_requests: 0,
                last_updated: now / 1000,
            },
        }
    }

    /// Overwrite the utilization figures and refresh the timestamp.
    pub fn update_metrics(&mut self, cpu: u32, memory: u32, gpu: Option<u32>)
        ensures
            final(self).config == old(self).config,
            final(self).metrics.cpu_utilization == cpu,
            final(self).metrics.memory_utilization == memory,
            final(self).metrics.gpu_utilization == gpu,
            final(self).metrics.requests_per_minute == old(self).metrics.requests_per_minute,
            final(self).metrics.average_response_time_ms == old(
                self,
            ).metrics.average_response_time_ms,
            final(self).metrics.active_requests == old(self).metrics.active_requests,
    {
        let now = unix_time_millis();
        self.metrics.cpu_utilization = cpu;
        self.metrics.memory_utilization = memory;
        self.metrics.gpu_utilization = gpu;
        self.metrics.last_updated = now / 1000;
    }

    /// Record a request entering service.
    fn record_request_start(&mut self)
        requires
            old(self).metrics.active_requests < u32::MAX,
        ensures
            final(self).config == old(self).config,
            final(self).metrics == (NodeMetrics {
                active_requests: (old(self).metrics.active_requests + 1) as u32,
                ..old(self).metrics
            }),
    {
        self.metrics.active_requests = self.metrics.active_requests + 1;
    }

    /// Record a request leaving service: decrement the in-flight count
    /// (saturating at zero), fold the observed duration into the average
    /// response time, and count the request.
    fn record_request_end(&mut self, duration_ms: u64)
        ensures
            final(self).config == old(self).config,
            final(self).metrics == (NodeMetrics {
                active_requests: if old(self).metrics.active_requests > 0 {
                    (old(self).metrics.active_requests - 1) as u32
                } else {
                    0
                },
                average_response_time_ms: spec_ema(
                    old(self).metrics.average_response_time_ms,
                    duration_ms,
                ),
                requests_per_minute: if old(self).metrics.requests_per_minute < u32::MAX {
                    (old(self).metrics.requests_per_minute + 1) as u32
                } else {
                    u32::MAX
                },
                ..old(self).metrics
            }),
    {
        self.metrics.active_requests = self.metrics.active_requests.saturating_sub(1);
        let old_avg = self.metrics.average_response_time_ms;
        let scaled: u128 = (old_avg as u128) * 9 + (duration_ms as u128);
        let new_avg: u128 = scaled / 10;
        proof {
            assert(new_avg <= u64::MAX);
        }
        self.metrics.average_response_time_ms = new_avg as u64;
        self.metrics.requests_per_minute = self.metrics.requests_per_minute.saturating_add(1);
    }

    /// The models this client serves, as configured.
    pub fn get_supported_models(&self) -> (r: Vec<ModelInfo>)
        ensures
            eq_models(r@, self.config.models@),
    {
        crate::llm::clone_models(&self.config.models)
    }

    /// The static capabilities of this client: no streaming, no batching.
    pub fn get_capabilities(&self) -> (r: LlmCapabilities)
        ensures
            !r.supports_streaming,
            r.max_concurrent_requests == self.config.max_concurrent_requests,
            !r.supports_batching,
            r.features@.len() == 0,
    {
        LlmCapabilities {
            supports_streaming: false,
            max_concurrent_requests: self.config.max_concurrent_requests,
            supports_batching: false,
            features: Vec::new(),
        }
    }

    /// The most recently recorded metrics snapshot.
    pub fn get_metrics(&self) -> (r: NodeMetrics)
        ensures
            r == self.metrics,
    {
        self.metrics
    }

    /// Answer a chat completion request.
    ///
    /// Fails with `ModelNotSupported` exactly when the request's model is not
    /// in the configured listing, leaving the client unchanged; otherwise
    /// returns a well-formed empty completion and updates the metrics around
    /// the call.
    pub fn chat_completion(&mut self, request: ChatCompletionRequest) -> (r: Result<
        ChatCompletionResponse,
        LlmError,
    >)
        requires
            old(self).metrics.active_requests < u32::MAX,
        ensures
            r is Ok <==> spec_models_include(old(self).config.models@, request.model@),
            r matches Err(e) ==> {
                &&& e matches LlmError::ModelNotSupported(m) && m@ == request.model@
                &&& *final(self) == *old(self)
            },
            r matches Ok(resp) ==> {
                &&& resp.id@.len() == 36
                &&& resp.object@ == "chat.completion"@
                &&& resp.model@ == request.model@
                &&& resp.choices@.len() == 0
                &&& resp.usage is None
                &&& final(self).config == old(self).config
                &&& final(self).metrics.active_requests == old(self).metrics.active_requests
                &&& final(self).metrics.cpu_utilization == old(self).metrics.cpu_utilization
                &&& final(self).metrics.memory_utilization == old(self).metrics.memory_utilization
                &&& final(self).metrics.gpu_utilization == old(self).metrics.gpu_utilization
                &&& final(self).metrics.requests_per_minute == if old(
                    self,
                ).metrics.requests_per_minute < u32::MAX {
                    (old(self).metrics.requests_per_minute + 1) as u32
                } else {
                    u32::MAX
                }
                &&& exists|d: u64|
                    final(self).metrics.average_response_time_ms == spec_ema(
                        old(self).metrics.average_response_time_ms,
                        d,
                    )
            },
    {
        if !crate::llm::models_include(&self.config.models, request.model.as_str()) {
            return Err(LlmError::ModelNotSupported(request.model));
        }
        let start = unix_time_millis();
        self.record_request_start();
        let response = ChatCompletionResponse {
            id: fresh_request_id(),
            object: "chat.completion".to_owned(),
            created: unix_time_millis() / 1000,
            model: request.model,
            choices: Vec::new(),
            usage: None,
        };
        let end = unix_time_millis();
        let duration = if end >= start {
            end - start
        } else {
            0
        };
        self.record_request_end(duration);
        Ok(response)
    }

    /// Answer a text completion request; same contract shape as chat.
    pub fn text_completion(&mut self, request: TextCompletionRequest) -> (r: Result<
        TextCompletionResponse,
        LlmError,
    >)
        requires
            old(self).metrics.active_requests < u32::MAX,
        ensures
            r is Ok <==> spec_models_include(old(self).config.models@, request.model@),
            r matches Err(e) ==> {
                &&& e matches LlmError::ModelNotSupported(m) && m@ == request.model@
                &&& *final(self) == *old(self)
            },
            r matches Ok(resp) ==> {
                &&& resp.id@.len() == 36
                &&& resp.object@ == "text_completion"@
                &&& resp.model@ == request.model@
                &&& resp.choices@.len() == 0
                &&& resp.usage is None
                &&& final(self).config == old(self).config
                &&& final(self).metrics.active_requests == old(self).metrics.active_requests
                &&& final(self).metrics.cpu_utilization == old(self).metrics.cpu_utilization
                &&& final(self).metrics.memory_utilization == old(self).metrics.memory_utilization
                &&& final(self).metrics.gpu_utilization == old(self).metrics.gpu_utilization
                &&& final(self).metrics.requests_per_minute == if old(
                    self,
                ).metrics.requests_per_minute < u32::MAX {
                    (old(self).metrics.requests_per_minute + 1) as u32
                } else {
                    u32::MAX
                }
                &&& exists|d: u64|
                    final(self).metrics.average_response_time_ms == spec_ema(
                        old(self).metrics.average_response_time_ms,
                        d,
                    )
            },
    {
        if !crate::llm::models_include(&self.config.models, request.model.as_str()) {
            return Err(LlmError::ModelNotSupported(request.model));
        }
        let start = unix_time_millis();
        self.record_request_start();
        let response = TextCompletionResponse {
            id: fresh_request_id(),
            object: "text_completion".to_owned(),
            created: unix_time_millis() / 1000,
            model: request.model,
            choices: Vec::new(),
            usage: None,
        };
        let end = unix_time_millis();
        let duration = if end >= start {
            end - start
        } else {
            0
        };
        self.record_request_end(duration);
        Ok(response)
    }

    /// Answer an embedding request; same contract shape as chat.
    pub fn embeddings(&mut self, request: EmbeddingRequest) -> (r: Result<
        EmbeddingResponse,
        LlmError,
    >)
        requires
            old(self).metrics.active_requests < u32::MAX,
        ensures
            r is Ok <==> spec_models_include(old(self).config.models@, request.model@),
            r matches Err(e) ==> {
                &&& e matches LlmError::ModelNotSupported(m) && m@ == request.model@
                &&& *final(self) == *old(self)
            },
            r matches Ok(resp) ==> {
                &&& resp.object@ == "list"@
                &&& resp.model@ == request.model@
                &&& resp.data@.len() == 0
                &&& resp.usage is None
                &&& final(self).config == old(self).config
                &&& final(self).metrics.active_requests == old(self).metrics.active_requests
                &&& final(self).metrics.cpu_utilization == old(self).metrics.cpu_utilization
                &&& final(self).metrics.memory_utilization == old(self).metrics.memory_utilization
                &&& final(self).metrics.gpu_utilization == old(self).metrics.gpu_utilization
                &&& final(self).metrics.requests_per_minute == if old(
                    self,
                ).metrics.requests_per_minute < u32::MAX {
                    (old(self).metrics.requests_per_minute + 1) as u32
                } else {
                    u32::MAX
                }
                &&& exists|d: u64|
                    final(self).metrics.average_response_time_ms == spec_ema(
                        old(self).metrics.average_response_time_ms,
                        d,
                    )
            },
    {
        if !crate::llm::models_include(&self.config.models, request.model.as_str()) {
            return Err(LlmError::ModelNotSupported(request.model));
        }
        let start = unix_time_millis();
        self.record_request_start();
        let response = EmbeddingResponse {
            object: "list".to_owned(),
            model: request.model,
            data: Vec::new(),
            usage: None,
        };
        let end = unix_time_millis();
        let duration = if end >= start {
            end - start
        } else {
            0
        };
        self.record_request_end(duration);
        Ok(response)
    }
}

/// Which HTTP-based engine a remote backend speaks to.
#[derive(Clone, Copy, PartialEq, Eq, Structural, Debug)]
pub enum EngineKind {
    /// The first HTTP engine flavour.
    Ollama,
    /// The second HTTP engine flavour.
    Vllm,
}

/// The registry-side image of an HTTP-based backend: its cached model
/// listing, capabilities and latest metrics as plain values. The engine's
/// wire traffic happens outside this library, keyed by the owning node's id.
#[derive(Debug)]
pub struct RemoteBackend {
    /// The engine flavour behind this backend.
    pub engine: EngineKind,
    /// The base URL of the engine.
    pub api_url: String,
    /// The cached model listing advertised by the engine.
    pub models: Vec<ModelInfo>,
    /// The static capabilities of the engine.
    pub capabilities: LlmCapabilities,
    /// The latest metrics snapshot reported for the engine.
    pub metrics: NodeMetrics,
}

/// Whether two remote backends agree field for field.
pub open spec fn eq_remote_backend(a: RemoteBackend, b: RemoteBackend) -> bool {
    &&& a.engine == b.engine
    &&& a.api_url@ == b.api_url@
    &&& eq_models(a.models@, b.models@)
    &&& eq_capabilities(a.capabilities, b.capabilities)
    &&& a.metrics == b.metrics
}

impl Clone for RemoteBackend {
    /// Clone agreeing with the original field for field.
    fn clone(&self) -> (r: Self)
        ensures
            eq_remote_backend(r, *self),
    {
        RemoteBackend {
            engine: self.engine,
            api_url: self.api_url.clone(),
            models: crate::llm::clone_models(&self.models),
            capabilities: self.capabilities.clone(),
            metrics: self.metrics,
        }
    }
}

/// A backend client: the closed union of the backend variants the registry
/// can select over.
#[derive(Debug)]
pub enum BackendClient {
    /// The locally hosted stand-in engine.
    Local(LocalLlmClient),
    /// An HTTP-based engine, represented by its cached image.
    Remote(RemoteBackend),
}

/// Whether two local clients agree field for field.
pub open spec fn eq_local_client(a: LocalLlmClient, b: LocalLlmClient) -> bool {
    eq_local_config(a.config, b.config) && a.metrics == b.metrics
}

/// Whether two backend clients agree variant for variant, field for field.
pub open spec fn eq_backend(a: BackendClient, b: BackendClient) -> bool {
    match (a, b) {
        (BackendClient::Local(x), BackendClient::Local(y)) => eq_local_client(x, y),
        (BackendClient::Remote(x), BackendClient::Remote(y)) => eq_remote_backend(x, y),
        _ => false,
    }
}

impl Clone for LocalLlmClient {
    /// Clone agreeing with the original field for field.
    fn clone(&self) -> (r: Self)
        ensures
            eq_local_client(r, *self),
    {
        LocalLlmClient { config: self.config.clone(), metrics: self.metrics }
    }
}

impl Clone for BackendClient {
    /// Clone agreeing with the original field for field.
    fn clone(&self) -> (r: Self)
        ensures
            eq_backend(r, *self),
    {
        match self {
            BackendClient::Local(c) => BackendClient::Local(c.clone()),
            BackendClient::Remote(b) => BackendClient::Remote(b.clone()),
        }
    }
}

impl BackendClient {
    /// The cached model listing of this client.
    pub open spec fn spec_models(&self) -> Seq<ModelInfo> {
        match self {
            BackendClient::Local(c) => c.config.models@,
            BackendClient::Remote(b) => b.models@,
        }
    }

    /// The latest metrics snapshot of this client.
    pub open spec fn spec_metrics(&self) -> NodeMetrics {
        match self {
            BackendClient::Local(c) => c.metrics,
            BackendClient::Remote(b) => b.metrics,
        }
    }

    /// Whether this client reports streaming support. The local stand-in
    /// never streams; a remote engine streams when its capabilities say so.
    pub open spec fn spec_supports_streaming(&self) -> bool {
        match self {
            BackendClient::Local(_) => false,
            BackendClient::Remote(b) => b.capabilities.supports_streaming,
        }
    }

    /// A reference to the cached model listing of this client.
    pub fn models(&self) -> (r: &Vec<ModelInfo>)
        ensures
            r@ == self.spec_models(),
    {
        match self {
            BackendClient::Local(c) => &c.config.models,
            BackendClient::Remote(b) => &b.models,
        }
    }

    /// The cached model listing of this client.
    pub fn get_supported_models(&self) -> (r: Vec<ModelInfo>)
        ensures
            eq_models(r@, self.spec_models()),
    {
        match self {
            BackendClient::Local(c) => c.get_supported_models(),
            BackendClient::Remote(b) => crate::llm::clone_models(&b.models),
        }
    }

    /// The latest metrics snapshot of this client.
    pub fn get_metrics(&self) -> (r: NodeMetrics)
        ensures
            r == self.spec_metrics(),
    {
        match self {
            BackendClient::Local(c) => c.get_metrics(),
            BackendClient::Remote(b) => b.metrics,
        }
    }

    /// Whether this client supports streaming, read from its own capability
    /// record rather than by reinterpreting the client reference.
    pub fn supports_streaming(&self) -> (r: bool)
        ensures
            r == self.spec_supports_streaming(),
    {
        match self {
            BackendClient::Local(_) => false,
            BackendClient::Remote(b) => b.capabilities.supports_streaming,
        }
    }

    /// Whether this client's cached listing includes `model`.
    pub fn supports_model(&self, model: &str) -> (r: bool)
        ensures
            r == spec_models_include(self.spec_models(), model@),
    {
        match self {
            BackendClient::Local(c) => crate::llm::models_include(&c.config.models, model),
            BackendClient::Remote(b) => crate::llm::models_include(&b.models, model),
        }
    }
}

} // verus!
