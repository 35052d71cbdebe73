//! Configuration of the routing service: the value types, their defaults,
//! validation, the file/environment merge rule, and the parsing of
//! environment-supplied overrides.
//!
//! Reading files and environment variables happens outside this library; the
//! functions here take the raw text already read and decide everything else.

use vstd::prelude::*;

use crate::llm::ModelInfo;
use crate::load_balancer::LoadBalancingStrategy;

verus! {

/// Errors that can occur when loading configuration.
#[derive(Debug)]
pub enum ConfigError {
    /// The configuration file could not be read; carries the cause.
    FileReadError(String),
    /// The configuration text could not be parsed; carries the cause.
    ParseError(String),
    /// A required configuration value is missing; carries its name.
    MissingValue(String),
    /// A configuration value is invalid; carries the complaint.
    InvalidValue(String),
}

/// Configuration for the whole routing service.
#[derive(Debug)]
pub struct BlueprintConfig {
    /// Configuration for the backend client.
    pub llm: LlmConfig,
    /// Configuration for the load balancer.
    pub load_balancer: LoadBalancerConfig,
    /// Configuration for the API server.
    pub api: ApiConfig,
    /// Additional configuration parameters.
    pub additional_params: Vec<(String, String)>,
}

/// Configuration for the backend client.
#[derive(Debug)]
pub struct LlmConfig {
    /// The base URL for the engine.
    pub api_url: String,
    /// The timeout for requests, in seconds.
    pub timeout_seconds: u64,
    /// The maximum number of concurrent requests.
    pub max_concurrent_requests: usize,
    /// The models available on this instance.
    pub models: Vec<ModelInfo>,
    /// Additional configuration parameters.
    pub additional_params: Vec<(String, String)>,
}

/// Configuration for the load balancer, as carried in the service
/// configuration.
#[derive(Clone, Copy, PartialEq, Eq, Structural, Debug)]
pub struct LoadBalancerConfig {
    /// The load balancing strategy to use.
    pub strategy: LoadBalancingStrategy,
    /// Maximum number of retries if a node fails.
    pub max_retries: usize,
    /// Timeout for node selection in milliseconds.
    pub selection_timeout_ms: u64,
}

/// Configuration for the API server.
#[derive(Debug)]
pub struct ApiConfig {
    /// Whether to enable the API server.
    pub enabled: bool,
    /// The host to bind the API server to.
    pub host: String,
    /// The port to bind the API server to.
    pub port: u16,
    /// Whether to enable authentication.
    pub auth_enabled: bool,
    /// The API key for authentication.
    pub api_key: Option<String>,
    /// Whether to enable rate limiting.
    pub rate_limiting_enabled: bool,
    /// The maximum number of requests per minute.
    pub max_requests_per_minute: u32,
    /// The interval in seconds for reporting metrics.
    pub metrics_interval_seconds: u64,
    /// The authentication token for API endpoints.
    pub auth_token: Option<String>,
}

/// The default engine URL.
pub fn default_api_url() -> (r: String)
    ensures
        r@ == "http://localhost:8000"@,
{
    "http://localhost:8000".to_owned()
}

/// The default request timeout, in seconds.
pub fn default_timeout() -> (r: u64)
    ensures
        r == 60,
{
    60
}

/// The default bound on concurrent requests.
pub fn default_max_concurrent() -> (r: usize)
    ensures
        r == 5,
{
    5
}

/// The default retry bound for node failures.
pub fn default_max_retries() -> (r: usize)
    ensures
        r == 3,
{
    3
}

/// The default node selection timeout, in milliseconds.
pub fn default_selection_timeout() -> (r: u64)
    ensures
        r == 1000,
{
    1000
}

/// The default API host.
pub fn default_host() -> (r: String)
    ensures
        r@ == "0.0.0.0"@,
{
    "0.0.0.0".to_owned()
}

/// The default API port.
pub fn default_port() -> (r: u16)
    ensures
        r == 3000,
{
    3000
}

/// The default bound on requests per minute.
pub fn default_rate_limit() -> (r: u32)
    ensures
        r == 60,
{
    60
}

/// A default of true, for flags that start enabled.
pub fn default_true() -> (r: bool)
    ensures
        r,
{
    true
}

/// A default of false, for flags that start disabled.
pub fn default_false() -> (r: bool)
    ensures
        !r,
{
    false
}

/// The default metrics reporting interval, in seconds.
pub fn default_metrics_interval() -> (r: u64)
    ensures
        r == 60,
{
    60
}

/// What the stock model listing holds: a chat-and-text model, a text-only
/// model, and an embeddings model.
pub open spec fn is_default_models(s: Seq<ModelInfo>) -> bool {
    &&& s.len() == 3
    &&& s[0].id@ == "gpt-3.5-turbo"@
    &&& s[0].name@ == "GPT-3.5 Turbo"@
    &&& s[0].max_context_length == 4096
    &&& s[0].supports_chat
    &&& s[0].supports_text
    &&& !s[0].supports_embeddings
    &&& s[0].parameters@.len() == 0
    &&& s[1].id@ == "text-davinci-003"@
    &&& s[1].name@ == "Text Davinci 003"@
    &&& s[1].max_context_length == 4096
    &&& !s[1].supports_chat
    &&& s[1].supports_text
    &&& !s[1].supports_embeddings
    &&& s[1].parameters@.len() == 0
    &&& s[2].id@ == "text-embedding-ada-002"@
    &&& s[2].name@ == "Text Embedding Ada 002"@
    &&& s[2].max_context_length == 8191
    &&& !s[2].supports_chat
    &&& !s[2].supports_text
    &&& s[2].supports_embeddings
    &&& s[2].parameters@.len() == 0
}

/// The stock model listing.
pub fn default_models() -> (r: Vec<ModelInfo>)
    ensures
        is_default_models(r@),
{
    let mut models: Vec<ModelInfo> = Vec::new();
    models.push(
        ModelInfo {
            id: "gpt-3.5-turbo".to_owned(),
            name: "GPT-3.5 Turbo".to_owned(),
            max_context_length: 4096,
            supports_chat: true,
            supports_text: true,
            supports_embeddings: false,
            parameters: Vec::new(),
        },
    );
    models.push(
        ModelInfo {
            id: "text-davinci-003".to_owned(),
            name: "Text Davinci 003".to_owned(),
            max_context_length: 4096,
            supports_chat: false,
            supports_text: true,
            supports_embeddings: false,
            parameters: Vec::new(),
        },
    );
    models.push(
        ModelInfo {
            id: "text-embedding-ada-002".to_owned(),
            name: "Text Embedding Ada 002".to_owned(),
            max_context_length: 8191,
            supports_chat: false,
            supports_text: false,
            supports_embeddings: true,
            parameters: Vec::new(),
        },
    );
    models
}

/// What a default backend-client configuration holds.
pub open spec fn is_default_llm_config(c: LlmConfig) -> bool {
    &&& c.api_url@ == "http://localhost:8000"@
    &&& c.timeout_seconds == 60
    &&& c.max_concurrent_requests == 5
    &&& is_default_models(c.models@)
    &&& c.additional_params@.len() == 0
}

/// What a default load-balancer configuration holds.
pub open spec fn is_default_lb_config(c: LoadBalancerConfig) -> bool {
    &&& c.strategy == LoadBalancingStrategy::RoundRobin
    &&& c.max_retries == 3
    &&& c.selection_timeout_ms == 1000
}

/// What a default API configuration holds.
pub open spec fn is_default_api_config(c: ApiConfig) -> bool {
    &&& c.enabled
    &&& c.host@ == "0.0.0.0"@
    &&& c.port == 3000
    &&& !c.auth_enabled
    &&& c.api_key is None
    &&& c.rate_limiting_enabled
    &&& c.max_requests_per_minute == 60
    &&& c.metrics_interval_seconds == 60
    &&& c.auth_token is None
}

/// What a default service configuration holds.
pub open spec fn is_default_config(c: BlueprintConfig) -> bool {
    &&& is_default_llm_config(c.llm)
    &&& is_default_lb_config(c.load_balancer)
    &&& is_default_api_config(c.api)
    &&& c.additional_params@.len() == 0
}

impl Default for LlmConfig {
    /// The default backend-client configuration.
    fn default() -> (r: Self)
        ensures
            is_default_llm_config(r),
    {
        LlmConfig {
            api_url: default_api_url(),
            timeout_seconds: default_timeout(),
            max_concurrent_requests: default_max_concurrent(),
            models: default_models(),
            additional_params: Vec::new(),
        }
    }
}

impl Default for LoadBalancerConfig {
    /// The default load-balancer configuration.
    fn default() -> (r: Self)
        ensures
            is_default_lb_config(r),
    {
        LoadBalancerConfig {
            strategy: LoadBalancingStrategy::RoundRobin,
            max_retries: default_max_retries(),
            selection_timeout_ms: default_selection_timeout(),
        }
    }
}

impl Default for ApiConfig {
    /// The default API configuration.
    fn default() -> (r: Self)
        ensures
            is_default_api_config(r),
    {
        ApiConfig {
            enabled: default_true(),
            host: default_host(),
            port: default_port(),
            auth_enabled: default_false(),
            api_key: None,
            rate_limiting_enabled: default_true(),
            max_requests_per_minute: default_rate_limit(),
            metrics_interval_seconds: default_metrics_interval(),
            auth_token: None,
        }
    }
}

impl Default for BlueprintConfig {
    /// The default service configuration.
    fn default() -> (r: Self)
        ensures
            is_default_config(r),
    {
        BlueprintConfig {
            llm: LlmConfig::default(),
            load_balancer: LoadBalancerConfig::default(),
            api: ApiConfig::default(),
            additional_params: Vec::new(),
        }
    }
}


/// One configuration complaint, in the order validation checks them.
pub ghost enum ConfigViolation {
    MissingApiUrl,
    ZeroTimeout,
    ZeroMaxConcurrent,
    ZeroMaxRetries,
    ZeroSelectionTimeout,
    MissingHost,
    ZeroPort,
    MissingApiKey,
    ZeroRateLimit,
    ZeroMetricsInterval,
}

/// Whether the configuration passes every validation check.
pub open spec fn spec_valid(c: BlueprintConfig) -> bool {
    &&& c.llm.api_url@.len() > 0
    &&& c.llm.timeout_seconds > 0
    &&& c.llm.max_concurrent_requests > 0
    &&& c.load_balancer.max_retries > 0
    &&& c.load_balancer.selection_timeout_ms > 0
    &&& (c.api.enabled ==> {
        &&& c.api.host@.len() > 0
        &&& c.api.port > 0
        &&& (c.api.auth_enabled ==> c.api.api_key is Some)
        &&& (c.api.rate_limiting_enabled ==> c.api.max_requests_per_minute > 0)
        &&& c.api.metrics_interval_seconds > 0
    })
}

/// The first validation check the configuration fails, if any.
pub open spec fn first_violation(c: BlueprintConfig) -> Option<ConfigViolation> {
    if c.llm.api_url@.len() == 0 {
        Some(ConfigViolation::MissingApiUrl)
    } else if c.llm.timeout_seconds == 0 {
        Some(ConfigViolation::ZeroTimeout)
    } else if c.llm.max_concurrent_requests == 0 {
        Some(ConfigViolation::ZeroMaxConcurrent)
    } else if c.load_balancer.max_retries == 0 {
        Some(ConfigViolation::ZeroMaxRetries)
    } else if c.load_balancer.selection_timeout_ms == 0 {
        Some(ConfigViolation::ZeroSelectionTimeout)
    } else if !c.api.enabled {
        None
    } else if c.api.host@.len() == 0 {
        Some(ConfigViolation::MissingHost)
    } else if c.api.port == 0 {
        Some(ConfigViolation::ZeroPort)
    } else if c.api.auth_enabled && c.api.api_key is None {
        Some(ConfigViolation::MissingApiKey)
    } else if c.api.rate_limiting_enabled && c.api.max_requests_per_minute == 0 {
        Some(ConfigViolation::ZeroRateLimit)
    } else if c.api.metrics_interval_seconds == 0 {
        Some(ConfigViolation::ZeroMetricsInterval)
    } else {
        None
    }
}

/// Whether the error names the violation with its exact message.
pub open spec fn reflects_violation(e: ConfigError, v: ConfigViolation) -> bool {
    match v {
        ConfigViolation::MissingApiUrl => e matches ConfigError::MissingValue(m) && m@
            == "LLM API URL"@,
        ConfigViolation::ZeroTimeout => e matches ConfigError::InvalidValue(m) && m@
            == "LLM timeout must be greater than 0"@,
        ConfigViolation::ZeroMaxConcurrent => e matches ConfigError::InvalidValue(m) && m@
            == "LLM max concurrent requests must be greater than 0"@,
        ConfigViolation::ZeroMaxRetries => e matches ConfigError::InvalidValue(m) && m@
            == "Load balancer max retries must be greater than 0"@,
        ConfigViolation::ZeroSelectionTimeout => e matches ConfigError::InvalidValue(m) && m@
            == "Load balancer selection timeout must be greater than 0"@,
        ConfigViolation::MissingHost => e matches ConfigError::MissingValue(m) && m@ == "API host"@,
        ConfigViolation::ZeroPort => e matches ConfigError::InvalidValue(m) && m@
            == "API port must be greater than 0"@,
        ConfigViolation::MissingApiKey => e matches ConfigError::MissingValue(m) && m@
            == "API key is required when authentication is enabled"@,
        ConfigViolation::ZeroRateLimit => e matches ConfigError::InvalidValue(m) && m@
            == "API max requests per minute must be greater than 0"@,
        ConfigViolation::ZeroMetricsInterval => e matches ConfigError::InvalidValue(m) && m@
            == "API metrics interval must be greater than 0"@,
    }
}

impl BlueprintConfig {
    /// Validate the configuration: succeeds exactly when every check passes,
    /// and otherwise reports the first failing check.
    pub fn validate(&self) -> (r: Result<(), ConfigError>)
        ensures
            r is Ok <==> spec_valid(*self),
            r is Ok <==> first_violation(*self) is None,
            r matches Err(e) ==> (first_violation(*self) matches Some(v) && reflects_violation(
                e,
                v,
            )),
    {
        if self.llm.api_url.as_str().is_empty() {
            return Err(ConfigError::MissingValue("LLM API URL".to_owned()));
        }
        if self.llm.timeout_seconds == 0 {
            return Err(
                ConfigError::InvalidValue("LLM timeout must be greater than 0".to_owned()),
            );
        }
        if self.llm.max_concurrent_requests == 0 {
            return Err(
                ConfigError::InvalidValue(
                    "LLM max concurrent requests must be greater than 0".to_owned(),
                ),
            );
        }
        if self.load_balancer.max_retries == 0 {
            return Err(
                ConfigError::InvalidValue(
                    "Load balancer max retries must be greater than 0".to_owned(),
                ),
            );
        }
        if self.load_balancer.selection_timeout_ms == 0 {
            return Err(
                ConfigError::InvalidValue(
                    "Load balancer selection timeout must be greater than 0".to_owned(),
                ),
            );
        }
        if self.api.enabled {
            if self.api.host.as_str().is_empty() {
                return Err(ConfigError::MissingValue("API host".to_owned()));
            }
            if self.api.port == 0 {
                return Err(
                    ConfigError::InvalidValue("API port must be greater than 0".to_owned()),
                );
            }
            if self.api.auth_enabled && self.api.api_key.is_none() {
                return Err(
                    ConfigError::MissingValue(
                        "API key is required when authentication is enabled".to_owned(),
                    ),
                );
            }
            if self.api.rate_limiting_enabled && self.api.max_requests_per_minute == 0 {
                return Err(
                    ConfigError::InvalidValue(
                        "API max requests per minute must be greater than 0".to_owned(),
                    ),
                );
            }
            if self.api.metrics_interval_seconds == 0 {
                return Err(
                    ConfigError::InvalidValue(
                        "API metrics interval must be greater than 0".to_owned(),
                    ),
                );
            }
        }
        Ok(())
    }
}


/// The raw environment-supplied override values: each field carries the text
/// of one environment variable, when it was set. Reading the environment
/// happens outside this library.
#[derive(Debug)]
pub struct EnvConfigValues {
    /// Override for the engine URL.
    pub llm_api_url: Option<String>,
    /// Override for the request timeout, in seconds.
    pub llm_timeout: Option<String>,
    /// Override for the bound on concurrent requests.
    pub llm_max_concurrent: Option<String>,
    /// Override for the selection strategy.
    pub load_balancer_strategy: Option<String>,
    /// Override for the retry bound.
    pub load_balancer_max_retries: Option<String>,
    /// Override for the selection timeout, in milliseconds.
    pub load_balancer_timeout: Option<String>,
    /// Override for whether the API server is enabled.
    pub api_enabled: Option<String>,
    /// Override for the API host.
    pub api_host: Option<String>,
    /// Override for the API port.
    pub api_port: Option<String>,
    /// Override for whether authentication is enabled.
    pub api_auth_enabled: Option<String>,
    /// Override for the API key.
    pub api_key: Option<String>,
    /// Override for the authentication token.
    pub api_auth_token: Option<String>,
    /// Override for whether rate limiting is enabled.
    pub api_rate_limiting_enabled: Option<String>,
    /// Override for the bound on requests per minute.
    pub api_max_requests: Option<String>,
    /// Override for the metrics reporting interval, in seconds.
    pub api_metrics_interval: Option<String>,
}

/// The strategy named by `s`, compared ASCII case-insensitively against the
/// four strategy tokens.
pub open spec fn spec_strategy_from(s: Seq<char>) -> Option<LoadBalancingStrategy> {
    if crate::text::seq_eq_ignore_case(s, "round_robin"@) {
        Some(LoadBalancingStrategy::RoundRobin)
    } else if crate::text::seq_eq_ignore_case(s, "least_loaded"@) {
        Some(LoadBalancingStrategy::LeastLoaded)
    } else if crate::text::seq_eq_ignore_case(s, "capability_based"@) {
        Some(LoadBalancingStrategy::CapabilityBased)
    } else if crate::text::seq_eq_ignore_case(s, "latency_based"@) {
        Some(LoadBalancingStrategy::LatencyBased)
    } else {
        None
    }
}

/// Parse a strategy name, ASCII case-insensitively.
pub fn strategy_from_str(s: &str) -> (r: Option<LoadBalancingStrategy>)
    ensures
        r == spec_strategy_from(s@),
{
    if crate::text::eq_ignore_ascii_case(s, "round_robin") {
        Some(LoadBalancingStrategy::RoundRobin)
    } else if crate::text::eq_ignore_ascii_case(s, "least_loaded") {
        Some(LoadBalancingStrategy::LeastLoaded)
    } else if crate::text::eq_ignore_ascii_case(s, "capability_based") {
        Some(LoadBalancingStrategy::CapabilityBased)
    } else if crate::text::eq_ignore_ascii_case(s, "latency_based") {
        Some(LoadBalancingStrategy::LatencyBased)
    } else {
        None
    }
}

/// The value an override text contributes for a `u64` field: the parsed
/// number when the text is a well-formed numeral, the fallback otherwise.
pub open spec fn env_u64(v: Option<String>, fallback: u64) -> u64 {
    match v {
        Some(s) => if s@.len() > 0 && crate::text::all_digits(s@) && crate::text::dec_val(s@)
            <= u64::MAX {
            crate::text::dec_val(s@) as u64
        } else {
            fallback
        },
        None => fallback,
    }
}

/// The value an override text contributes for a `bool` field.
pub open spec fn env_bool(v: Option<String>, fallback: bool) -> bool {
    match v {
        Some(s) => if s@ == "true"@ {
            true
        } else if s@ == "false"@ {
            false
        } else {
            fallback
        },
        None => fallback,
    }
}

/// Parse an override text for a `u64` field, keeping the fallback when the
/// text is absent or malformed.
fn apply_env_u64(v: &Option<String>, fallback: u64) -> (r: u64)
    ensures
        r == env_u64(*v, fallback),
{
    match v {
        Some(s) => match crate::text::parse_u64(s.as_str()) {
            Some(n) => n,
            None => fallback,
        },
        None => fallback,
    }
}

/// Parse an override text for a `bool` field, keeping the fallback when the
/// text is absent or malformed.
fn apply_env_bool(v: &Option<String>, fallback: bool) -> (r: bool)
    ensures
        r == env_bool(*v, fallback),
{
    match v {
        Some(s) => match crate::text::parse_bool(s.as_str()) {
            Some(b) => b,
            None => fallback,
        },
        None => fallback,
    }
}

impl BlueprintConfig {
    /// Build a configuration from environment-supplied override texts: each
    /// well-formed override replaces the default value of its field, and
    /// everything else keeps its default.
    pub fn from_env(vals: EnvConfigValues) -> (r: Self)
        ensures
            r.llm.api_url@ == (match vals.llm_api_url {
                Some(s) => s@,
                None => "http://localhost:8000"@,
            }),
            r.llm.timeout_seconds == env_u64(vals.llm_timeout, 60),
            r.llm.max_concurrent_requests as int == (if env_u64(vals.llm_max_concurrent, 5)
                <= usize::MAX {
                env_u64(vals.llm_max_concurrent, 5) as int
            } else {
                5
            }),
            is_default_models(r.llm.models@),
            r.llm.additional_params@.len() == 0,
            r.load_balancer.strategy == (match vals.load_balancer_strategy {
                Some(s) => match spec_strategy_from(s@) {
                    Some(st) => st,
                    None => LoadBalancingStrategy::RoundRobin,
                },
                None => LoadBalancingStrategy::RoundRobin,
            }),
            r.load_balancer.max_retries as int == (if env_u64(vals.load_balancer_max_retries, 3)
                <= usize::MAX {
                env_u64(vals.load_balancer_max_retries, 3) as int
            } else {
                3
            }),
            r.load_balancer.selection_timeout_ms == env_u64(vals.load_balancer_timeout, 1000),
            r.api.enabled == env_bool(vals.api_enabled, true),
            r.api.host@ == (match vals.api_host {
                Some(s) => s@,
                None => "0.0.0.0"@,
            }),
            r.api.port as int == (if env_u64(vals.api_port, 3000) <= u16::MAX {
                env_u64(vals.api_port, 3000) as int
            } else {
                3000
            }),
            r.api.auth_enabled == env_bool(vals.api_auth_enabled, false),
            r.api.api_key == vals.api_key,
            r.api.auth_token == vals.api_auth_token,
            r.api.rate_limiting_enabled == env_bool(vals.api_rate_limiting_enabled, true),
            r.api.max_requests_per_minute as int == (if env_u64(vals.api_max_requests, 60)
                <= u32::MAX {
                env_u64(vals.api_max_requests, 60) as int
            } else {
                60
            }),
            r.api.metrics_interval_seconds == env_u64(vals.api_metrics_interval, 60),
            r.additional_params@.len() == 0,
    {
        let mut config = BlueprintConfig::default();
        if let Some(url) = vals.llm_api_url {
            config.llm.api_url = url;
        }
        config.llm.timeout_seconds = apply_env_u64(&vals.llm_timeout, 60);
        let max_concurrent = apply_env_u64(&vals.llm_max_concurrent, 5);
        if max_concurrent <= usize::MAX as u64 {
            config.llm.max_concurrent_requests = max_concurrent as usize;
        }
        if let Some(st) = &vals.load_balancer_strategy {
            if let Some(parsed) = strategy_from_str(st.as_str()) {
                config.load_balancer.strategy = parsed;
            }
        }
        let max_retries = apply_env_u64(&vals.load_balancer_max_retries, 3);
        if max_retries <= usize::MAX as u64 {
            config.load_balancer.max_retries = max_retries as usize;
        }
        config.load_balancer.selection_timeout_ms = apply_env_u64(&vals.load_balancer_timeout,
            1000);
        config.api.enabled = apply_env_bool(&vals.api_enabled, true);
        if let Some(host) = vals.api_host {
            config.api.host = host;
        }
        let port = apply_env_u64(&vals.api_port, 3000);
        if port <= u16::MAX as u64 {
            config.api.port = port as u16;
        }
        config.api.auth_enabled = apply_env_bool(&vals.api_auth_enabled, false);
        config.api.api_key = vals.api_key;
        config.api.auth_token = vals.api_auth_token;
        config.api.rate_limiting_enabled = apply_env_bool(&vals.api_rate_limiting_enabled, true);
        let max_requests = apply_env_u64(&vals.api_max_requests, 60);
        if max_requests <= u32::MAX as u64 {
            config.api.max_requests_per_minute = max_requests as u32;
        }
        config.api.metrics_interval_seconds = apply_env_u64(&vals.api_metrics_interval, 60);
        config
    }

    /// Merge a file-loaded configuration with an environment-built one: an
    /// environment value that differs from its default takes precedence, and
    /// everything else keeps the file's value. The model listing and the
    /// extra parameters always stay the file's.
    #[verifier::rlimit(60)]
    pub fn load(file_config: Self, env_config: Self) -> (r: Self)
        ensures
            r.llm.api_url == (if env_config.llm.api_url@ != "http://localhost:8000"@ {
                env_config.llm.api_url
            } else {
                file_config.llm.api_url
            }),
            r.llm.timeout_seconds == (if env_config.llm.timeout_seconds != 60 {
                env_config.llm.timeout_seconds
            } else {
                file_config.llm.timeout_seconds
            }),
            r.llm.max_concurrent_requests == (if env_config.llm.max_concurrent_requests != 5 {
                env_config.llm.max_concurrent_requests
            } else {
                file_config.llm.max_concurrent_requests
            }),
            r.llm.models == file_config.llm.models,
            r.llm.additional_params == file_config.llm.additional_params,
            r.load_balancer.strategy == (if env_config.load_balancer.strategy
                != LoadBalancingStrategy::RoundRobin {
                env_config.load_balancer.strategy
            } else {
                file_config.load_balancer.strategy
            }),
            r.load_balancer.max_retries == (if env_config.load_balancer.max_retries != 3 {
                env_config.load_balancer.max_retries
            } else {
                file_config.load_balancer.max_retries
            }),
            r.load_balancer.selection_timeout_ms == (if env_config.load_balancer.selection_timeout_ms
                != 1000 {
                env_config.load_balancer.selection_timeout_ms
            } else {
                file_config.load_balancer.selection_timeout_ms
            }),
            r.api.enabled == (if !env_config.api.enabled {
                env_config.api.enabled
            } else {
                file_config.api.enabled
            }),
            r.api.host == (if env_config.api.host@ != "0.0.0.0"@ {
                env_config.api.host
            } else {
                file_config.api.host
            }),
            r.api.port == (if env_config.api.port != 3000 {
                env_config.api.port
            } else {
                file_config.api.port
            }),
            r.api.auth_enabled == (if env_config.api.auth_enabled {
                env_config.api.auth_enabled
            } else {
                file_config.api.auth_enabled
            }),
            r.api.api_key == (if env_config.api.api_key is Some {
                env_config.api.api_key
            } else {
                file_config.api.api_key
            }),
            r.api.auth_token == file_config.api.auth_token,
            r.api.rate_limiting_enabled == (if !env_config.api.rate_limiting_enabled {
                env_config.api.rate_limiting_enabled
            } else {
                file_config.api.rate_limiting_enabled
            }),
            r.api.max_requests_per_minute == (if env_config.api.max_requests_per_minute != 60 {
                env_config.api.max_requests_per_minute
            } else {
                file_config.api.max_requests_per_minute
            }),
            r.api.metrics_interval_seconds == (if env_config.api.metrics_interval_seconds != 60 {
                env_config.api.metrics_interval_seconds
            } else {
                file_config.api.metrics_interval_seconds
            }),
            r.additional_params == file_config.additional_params,
    {
        let mut config = file_config;
        if !(env_config.llm.api_url == default_api_url()) {
            config.llm.api_url = env_config.llm.api_url;
        }
        if env_config.llm.timeout_seconds != 60 {
            config.llm.timeout_seconds = env_config.llm.timeout_seconds;
        }
        if env_config.llm.max_concurrent_requests != 5 {
            config.llm.max_concurrent_requests = env_config.llm.max_concurrent_requests;
        }
        if env_config.load_balancer.strategy != LoadBalancingStrategy::RoundRobin {
            config.load_balancer.strategy = env_config.load_balancer.strategy;
        }
        if env_config.load_balancer.max_retries != 3 {
            config.load_balancer.max_retries = env_config.load_balancer.max_retries;
        }
        if env_config.load_balancer.selection_timeout_ms != 1000 {
            config.load_balancer.selection_timeout_ms =
                env_config.load_balancer.selection_timeout_ms;
        }
        if !env_config.api.enabled {
            config.api.enabled = env_config.api.enabled;
        }
        if !(env_config.api.host == default_host()) {
            config.api.host = env_config.api.host;
        }
        if env_config.api.port != 3000 {
            config.api.port = env_config.api.port;
        }
        if env_config.api.auth_enabled {
            config.api.auth_enabled = env_config.api.auth_enabled;
        }
        if env_config.api.api_key.is_some() {
            config.api.api_key = env_config.api.api_key;
        }
        if !env_config.api.rate_limiting_enabled {
            config.api.rate_limiting_enabled = env_config.api.rate_limiting_enabled;
        }
        if env_config.api.max_requests_per_minute != 60 {
            config.api.max_requests_per_minute = env_config.api.max_requests_per_minute;
        }
        if env_config.api.metrics_interval_seconds != 60 {
            config.api.metrics_interval_seconds = env_config.api.metrics_interval_seconds;
        }
        config
    }
}


/// The optional values a configuration file contributes, already parsed from
/// its wire format: an absent field keeps its default. Reading and decoding
/// the file happens outside this library.
pub struct FileConfigValues {
    /// The engine URL.
    pub llm_api_url: Option<String>,
    /// The request timeout, in seconds.
    pub llm_timeout_seconds: Option<u64>,
    /// The bound on concurrent requests.
    pub llm_max_concurrent_requests: Option<usize>,
    /// The model listing; an empty listing keeps the stock one.
    pub llm_models: Vec<ModelInfo>,
    /// Extra engine parameters.
    pub llm_additional_params: Vec<(String, String)>,
    /// The selection strategy, by name.
    pub load_balancer_strategy: Option<String>,
    /// The retry bound.
    pub load_balancer_max_retries: Option<usize>,
    /// The selection timeout, in milliseconds.
    pub load_balancer_selection_timeout_ms: Option<u64>,
    /// Whether the API server is enabled.
    pub api_enabled: Option<bool>,
    /// The API host.
    pub api_host: Option<String>,
    /// The API port.
    pub api_port: Option<u16>,
    /// Whether authentication is enabled.
    pub api_auth_enabled: Option<bool>,
    /// The API key.
    pub api_key: Option<String>,
    /// Whether rate limiting is enabled.
    pub api_rate_limiting_enabled: Option<bool>,
    /// The bound on requests per minute.
    pub api_max_requests_per_minute: Option<u32>,
    /// The metrics reporting interval, in seconds.
    pub api_metrics_interval_seconds: Option<u64>,
    /// The authentication token.
    pub api_auth_token: Option<String>,
    /// Extra service parameters.
    pub additional_params: Vec<(String, String)>,
}

impl BlueprintConfig {
    /// Build a configuration from the values a file contributed: each given
    /// field replaces the default value of its field; a named strategy that
    /// parses replaces the default one; an empty model listing keeps the
    /// stock listing.
    #[verifier::rlimit(60)]
    pub fn from_file(vals: FileConfigValues) -> (r: Self)
        ensures
            r.llm.api_url@ == (match vals.llm_api_url {
                Some(u) => u@,
                None => "http://localhost:8000"@,
            }),
            r.llm.timeout_seconds == (match vals.llm_timeout_seconds {
                Some(t) => t,
                None => 60u64,
            }),
            r.llm.max_concurrent_requests == (match vals.llm_max_concurrent_requests {
                Some(m) => m,
                None => 5usize,
            }),
            vals.llm_models@.len() > 0 ==> r.llm.models == vals.llm_models,
            vals.llm_models@.len() == 0 ==> is_default_models(r.llm.models@),
            r.llm.additional_params == vals.llm_additional_params,
            r.load_balancer.strategy == (match vals.load_balancer_strategy {
                Some(s) => match spec_strategy_from(s@) {
                    Some(st) => st,
                    None => LoadBalancingStrategy::RoundRobin,
                },
                None => LoadBalancingStrategy::RoundRobin,
            }),
            r.load_balancer.max_retries == (match vals.load_balancer_max_retries {
                Some(m) => m,
                None => 3usize,
            }),
            r.load_balancer.selection_timeout_ms == (match vals.load_balancer_selection_timeout_ms {
                Some(t) => t,
                None => 1000u64,
            }),
            r.api.enabled == (match vals.api_enabled {
                Some(e) => e,
                None => true,
            }),
            r.api.host@ == (match vals.api_host {
                Some(h) => h@,
                None => "0.0.0.0"@,
            }),
            r.api.port == (match vals.api_port {
                Some(p) => p,
                None => 3000u16,
            }),
            r.api.auth_enabled == (match vals.api_auth_enabled {
                Some(a) => a,
                None => false,
            }),
            r.api.api_key == vals.api_key,
            r.api.rate_limiting_enabled == (match vals.api_rate_limiting_enabled {
                Some(l) => l,
                None => true,
            }),
            r.api.max_requests_per_minute == (match vals.api_max_requests_per_minute {
                Some(m) => m,
                None => 60u32,
            }),
            r.api.metrics_interval_seconds == (match vals.api_metrics_interval_seconds {
                Some(i) => i,
                None => 60u64,
            }),
            r.api.auth_token == vals.api_auth_token,
            r.additional_params == vals.additional_params,
    {
        let mut config = BlueprintConfig::default();
        if let Some(url) = vals.llm_api_url {
            config.llm.api_url = url;
        }
        if let Some(t) = vals.llm_timeout_seconds {
            config.llm.timeout_seconds = t;
        }
        if let Some(m) = vals.llm_max_concurrent_requests {
            config.llm.max_concurrent_requests = m;
        }
        if vals.llm_models.len() > 0 {
            config.llm.models = vals.llm_models;
        }
        config.llm.additional_params = vals.llm_additional_params;
        if let Some(st) = &vals.load_balancer_strategy {
            if let Some(parsed) = strategy_from_str(st.as_str()) {
                config.load_balancer.strategy = parsed;
            }
        }
        if let Some(m) = vals.load_balancer_max_retries {
            config.load_balancer.max_retries = m;
        }
        if let Some(t) = vals.load_balancer_selection_timeout_ms {
            config.load_balancer.selection_timeout_ms = t;
        }
        if let Some(e) = vals.api_enabled {
            config.api.enabled = e;
        }
        if let Some(h) = vals.api_host {
            config.api.host = h;
        }
        if let Some(p) = vals.api_port {
            config.api.port = p;
        }
        if let Some(a) = vals.api_auth_enabled {
            config.api.auth_enabled = a;
        }
        config.api.api_key = vals.api_key;
        if let Some(l) = vals.api_rate_limiting_enabled {
            config.api.rate_limiting_enabled = l;
        }
        if let Some(m) = vals.api_max_requests_per_minute {
            config.api.max_requests_per_minute = m;
        }
        if let Some(i) = vals.api_metrics_interval_seconds {
            config.api.metrics_interval_seconds = i;
        }
        config.api.auth_token = vals.api_auth_token;
        config.additional_params = vals.additional_params;
        config
    }
}

} // verus!
