//! Core of an inference-request router: a registry of backend language-model
//! nodes with pluggable selection strategies, the backend-client abstraction it
//! selects over, and a streaming-response aggregator.
//!
//! Every function in this crate is verified. Network, file and environment
//! access live outside; the library works on plain values handed in by its
//! callers.

pub mod adapters;
pub mod config;
pub mod llm;
pub mod load_balancer;
pub mod local_llm;
pub mod models;
pub mod streaming;
pub mod text;

pub use config::{ApiConfig, BlueprintConfig, ConfigError, LlmConfig};
pub use llm::{LlmCapabilities, LlmError, ModelInfo, NodeMetrics};
pub use load_balancer::{
    LoadBalancer, LoadBalancerConfig, LoadBalancerNode, LoadBalancingStrategy,
};
pub use local_llm::{BackendClient, LocalLlmClient, LocalLlmConfig};
pub use models::{LlmRequest, LlmResponse};
