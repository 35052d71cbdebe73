//! Shared value types of the backend-client abstraction: the error taxonomy,
//! model descriptions, client capabilities and node metrics.
//!
//! Utilization figures are held in basis points (0..=10_000 standing for
//! 0.0..=1.0), so that selection arithmetic stays on plain integers.

use vstd::prelude::*;

verus! {

/// Errors that can occur when interacting with a backend.
#[derive(Debug)]
pub enum LlmError {
    /// Transport or backend failure, with a human-readable cause; retryable.
    RequestFailed(String),
    /// The target backend does not list the requested model.
    ModelNotSupported(String),
    /// The caller-supplied request fails basic validation.
    InvalidRequest(String),
    /// The backend deliberately does not support the operation.
    NotImplemented(String),
    /// The operation exceeded an externally imposed deadline, in milliseconds.
    Timeout(u64),
    /// Invariant violation inside this library.
    Internal(String),
}

/// Information about one model a node can serve.
#[derive(Debug)]
pub struct ModelInfo {
    /// Unique identifier for the model.
    pub id: String,
    /// Human-readable name of the model.
    pub name: String,
    /// Maximum context length supported by the model.
    pub max_context_length: usize,
    /// Whether the model supports chat completions.
    pub supports_chat: bool,
    /// Whether the model supports text completions.
    pub supports_text: bool,
    /// Whether the model supports embeddings.
    pub supports_embeddings: bool,
    /// Additional model-specific parameters.
    pub parameters: Vec<(String, String)>,
}

/// Capabilities of a backend client.
#[derive(Debug)]
pub struct LlmCapabilities {
    /// Whether the client supports streaming responses.
    pub supports_streaming: bool,
    /// Maximum number of concurrent requests supported.
    pub max_concurrent_requests: usize,
    /// Whether the client supports batching requests.
    pub supports_batching: bool,
    /// Additional capability flags.
    pub features: Vec<(String, bool)>,
}

/// Metrics for one backend node. Utilization fields are in basis points
/// (0..=10_000); a well-behaved client keeps them in that range, which the
/// registry does not itself enforce.
#[derive(Clone, Copy, PartialEq, Eq, Structural, Debug)]
pub struct NodeMetrics {
    /// Current CPU utilization, in basis points.
    pub cpu_utilization: u32,
    /// Current memory utilization, in basis points.
    pub memory_utilization: u32,
    /// Current GPU utilization if available, in basis points.
    pub gpu_utilization: Option<u32>,
    /// Number of requests processed in the last minute.
    pub requests_per_minute: u32,
    /// Average response time in milliseconds.
    pub average_response_time_ms: u64,
    /// Number of requests currently being processed.
    pub active_requests: u32,
    /// Timestamp of the last update (Unix timestamp in seconds).
    pub last_updated: u64,
}

/// Clone a vector of string pairs, preserving its value exactly.
pub fn clone_string_pairs(v: &Vec<(String, String)>) -> (r: Vec<(String, String)>)
    ensures
        r@ == v@,
{
    let mut out: Vec<(String, String)> = Vec::new();
    let mut i: usize = 0;
    while i < v.len()
        invariant
            i <= v.len(),
            out@ == v@.take(i as int),
        decreases v.len() - i,
    {
        let pair = (v[i].0.clone(), v[i].1.clone());
        out.push(pair);
        proof {
            assert(out@ =~= v@.take(i + 1));
        }
        i += 1;
    }
    proof {
        assert(v@.take(v.len() as int) =~= v@);
    }
    out
}

/// Clone a vector of string/flag pairs, preserving its value exactly.
pub fn clone_flag_pairs(v: &Vec<(String, bool)>) -> (r: Vec<(String, bool)>)
    ensures
        r@ == v@,
{
    let mut out: Vec<(String, bool)> = Vec::new();
    let mut i: usize = 0;
    while i < v.len()
        invariant
            i <= v.len(),
            out@ == v@.take(i as int),
        decreases v.len() - i,
    {
        let pair = (v[i].0.clone(), v[i].1);
        out.push(pair);
        proof {
            assert(out@ =~= v@.take(i + 1));
        }
        i += 1;
    }
    proof {
        assert(v@.take(v.len() as int) =~= v@);
    }
    out
}

/// Whether two model descriptions agree field for field.
pub open spec fn eq_model_info(a: ModelInfo, b: ModelInfo) -> bool {
    &&& a.id@ == b.id@
    &&& a.name@ == b.name@
    &&& a.max_context_length == b.max_context_length
    &&& a.supports_chat == b.supports_chat
    &&& a.supports_text == b.supports_text
    &&& a.supports_embeddings == b.supports_embeddings
    &&& a.parameters@ == b.parameters@
}

/// Whether two sequences of model descriptions agree element for element.
pub open spec fn eq_models(a: Seq<ModelInfo>, b: Seq<ModelInfo>) -> bool {
    a.len() == b.len() && forall|i: int| 0 <= i < a.len() ==> eq_model_info(#[trigger] a[i], b[i])
}

/// Whether two capability records agree field for field.
pub open spec fn eq_capabilities(a: LlmCapabilities, b: LlmCapabilities) -> bool {
    &&& a.supports_streaming == b.supports_streaming
    &&& a.max_concurrent_requests == b.max_concurrent_requests
    &&& a.supports_batching == b.supports_batching
    &&& a.features@ == b.features@
}

impl Clone for ModelInfo {
    /// Clone agreeing with the original field for field.
    fn clone(&self) -> (r: Self)
        ensures
            eq_model_info(r, *self),
    {
        ModelInfo {
            id: self.id.clone(),
            name: self.name.clone(),
            max_context_length: self.max_context_length,
            supports_chat: self.supports_chat,
            supports_text: self.supports_text,
            supports_embeddings: self.supports_embeddings,
            parameters: clone_string_pairs(&self.parameters),
        }
    }
}

impl Clone for LlmCapabilities {
    /// Clone agreeing with the original field for field.
    fn clone(&self) -> (r: Self)
        ensures
            eq_capabilities(r, *self),
    {
        LlmCapabilities {
            supports_streaming: self.supports_streaming,
            max_concurrent_requests: self.max_concurrent_requests,
            supports_batching: self.supports_batching,
            features: clone_flag_pairs(&self.features),
        }
    }
}

/// Whether some model in `models` carries the identifier `model`.
pub open spec fn spec_models_include(models: Seq<ModelInfo>, model: Seq<char>) -> bool {
    exists|i: int| 0 <= i < models.len() && (#[trigger] models[i]).id@ == model
}

/// Whether the identifier `model` occurs in `models`.
pub fn models_include(models: &Vec<ModelInfo>, model: &str) -> (r: bool)
    ensures
        r == spec_models_include(models@, model@),
{
    let mut i: usize = 0;
    while i < models.len()
        invariant
            i <= models.len(),
            forall|k: int| 0 <= k < i ==> (#[trigger] models@[k]).id@ != model@,
        decreases models.len() - i,
    {
        if crate::text::str_eq(models[i].id.as_str(), model) {
            return true;
        }
        i += 1;
    }
    false
}

/// Clone a vector of model descriptions, agreeing element for element.
pub fn clone_models(models: &Vec<ModelInfo>) -> (r: Vec<ModelInfo>)
    ensures
        eq_models(r@, models@),
{
    let mut out: Vec<ModelInfo> = Vec::new();
    let mut i: usize = 0;
    while i < models.len()
        invariant
            i <= models.len(),
            out@.len() == i,
            forall|j: int| 0 <= j < i ==> eq_model_info(#[trigger] out@[j], models@[j]),
        decreases models.len() - i,
    {
        out.push(models[i].clone());
        i += 1;
    }
    out
}

} // verus!
