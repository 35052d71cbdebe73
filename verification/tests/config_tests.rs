use open_router_core::config::{BlueprintConfig, ConfigError, EnvConfigValues, FileConfigValues};
use open_router_core::config::strategy_from_str;
use open_router_core::load_balancer::LoadBalancingStrategy;

#[test]
fn lib_test_default_config() {
    let config = BlueprintConfig::default();
    assert_eq!(config.llm.api_url, "http://localhost:8000");
    assert_eq!(config.llm.timeout_seconds, 60);
    assert_eq!(config.llm.max_concurrent_requests, 5);
    assert_eq!(config.load_balancer.max_retries, 3);
    assert_eq!(config.load_balancer.selection_timeout_ms, 1000);
    assert_eq!(config.api.host, "0.0.0.0");
    assert_eq!(config.api.port, 3000);
    assert_eq!(config.api.max_requests_per_minute, 60);
}

#[test]
fn lib_test_config_validation() {
    let mut config = BlueprintConfig::default();
    assert!(config.validate().is_ok());

    // Test invalid configuration
    config.llm.api_url = "".to_string();
    assert!(config.validate().is_err());

    // Reset and test another invalid configuration
    config = BlueprintConfig::default();
    config.llm.timeout_seconds = 0;
    assert!(config.validate().is_err());
}

#[test]
fn config_tests_test_default_config() {
    let config = BlueprintConfig::default();
    assert!(config.validate().is_ok());
}

#[test]
fn config_tests_test_config_validation() {
    // Test with invalid LLM API URL
    let mut config = BlueprintConfig::default();
    config.llm.api_url = "".to_string();
    assert!(config.validate().is_err());

    // Test with invalid timeout
    config = BlueprintConfig::default();
    config.llm.timeout_seconds = 0;
    assert!(config.validate().is_err());

    // Test with invalid max concurrent requests
    config = BlueprintConfig::default();
    config.llm.max_concurrent_requests = 0;
    assert!(config.validate().is_err());

    // Test with invalid load balancer max retries
    config = BlueprintConfig::default();
    config.load_balancer.max_retries = 0;
    assert!(config.validate().is_err());

    // Test with invalid API port
    config = BlueprintConfig::default();
    config.api.port = 0;
    assert!(config.validate().is_err());
}

#[test]
fn validation_reports_first_failing_check() {
    let mut config = BlueprintConfig::default();
    config.llm.api_url = "".to_string();
    match config.validate() {
        Err(ConfigError::MissingValue(m)) => assert_eq!(m, "LLM API URL"),
        _ => panic!("expected MissingValue for the API URL"),
    }

    config = BlueprintConfig::default();
    config.llm.max_concurrent_requests = 0;
    match config.validate() {
        Err(ConfigError::InvalidValue(m)) => {
            assert_eq!(m, "LLM max concurrent requests must be greater than 0")
        }
        _ => panic!("expected InvalidValue for max concurrent requests"),
    }

    config = BlueprintConfig::default();
    config.api.auth_enabled = true;
    config.api.api_key = None;
    match config.validate() {
        Err(ConfigError::MissingValue(m)) => {
            assert_eq!(m, "API key is required when authentication is enabled")
        }
        _ => panic!("expected MissingValue for the API key"),
    }
}

fn no_env_overrides() -> EnvConfigValues {
    EnvConfigValues {
        llm_api_url: None,
        llm_timeout: None,
        llm_max_concurrent: None,
        load_balancer_strategy: None,
        load_balancer_max_retries: None,
        load_balancer_timeout: None,
        api_enabled: None,
        api_host: None,
        api_port: None,
        api_auth_enabled: None,
        api_key: None,
        api_auth_token: None,
        api_rate_limiting_enabled: None,
        api_max_requests: None,
        api_metrics_interval: None,
    }
}

#[test]
fn from_env_without_overrides_is_default() {
    let config = BlueprintConfig::from_env(no_env_overrides());
    assert_eq!(config.llm.api_url, "http://localhost:8000");
    assert_eq!(config.llm.timeout_seconds, 60);
    assert_eq!(config.load_balancer.strategy, LoadBalancingStrategy::RoundRobin);
    assert_eq!(config.api.port, 3000);
    assert!(config.api.api_key.is_none());
}

#[test]
fn from_env_applies_well_formed_overrides() {
    let mut vals = no_env_overrides();
    vals.llm_api_url = Some("http://env-api.com".to_string());
    vals.llm_timeout = Some("45".to_string());
    vals.load_balancer_strategy = Some("least_loaded".to_string());
    vals.api_port = Some("9090".to_string());
    vals.api_auth_enabled = Some("true".to_string());
    vals.api_key = Some("env-token".to_string());
    let config = BlueprintConfig::from_env(vals);
    assert_eq!(config.llm.api_url, "http://env-api.com");
    assert_eq!(config.llm.timeout_seconds, 45);
    assert_eq!(config.load_balancer.strategy, LoadBalancingStrategy::LeastLoaded);
    assert_eq!(config.api.port, 9090);
    assert!(config.api.auth_enabled);
    assert_eq!(config.api.api_key.as_deref(), Some("env-token"));
}

#[test]
fn from_env_keeps_defaults_on_malformed_overrides() {
    let mut vals = no_env_overrides();
    vals.llm_timeout = Some("soon".to_string());
    vals.api_port = Some("70000".to_string());
    vals.load_balancer_strategy = Some("fastest".to_string());
    vals.api_enabled = Some("yes".to_string());
    let config = BlueprintConfig::from_env(vals);
    assert_eq!(config.llm.timeout_seconds, 60);
    assert_eq!(config.api.port, 3000);
    assert_eq!(config.load_balancer.strategy, LoadBalancingStrategy::RoundRobin);
    assert!(config.api.enabled);
}

#[test]
fn load_prefers_non_default_env_values() {
    let mut file_config = BlueprintConfig::default();
    file_config.llm.api_url = "http://file-api.com".to_string();
    file_config.api.port = 9999;

    let mut env_config = BlueprintConfig::default();
    env_config.llm.api_url = "http://override-api.com".to_string();

    let merged = BlueprintConfig::load(file_config, env_config);
    // The environment URL differs from the default, so it wins; the port was
    // left at its default in the environment, so the file's port stays.
    assert_eq!(merged.llm.api_url, "http://override-api.com");
    assert_eq!(merged.api.port, 9999);
}

#[test]
fn strategy_names_parse_case_insensitively() {
    assert_eq!(strategy_from_str("round_robin"), Some(LoadBalancingStrategy::RoundRobin));
    assert_eq!(strategy_from_str("LEAST_LOADED"), Some(LoadBalancingStrategy::LeastLoaded));
    assert_eq!(
        strategy_from_str("Capability_Based"),
        Some(LoadBalancingStrategy::CapabilityBased)
    );
    assert_eq!(strategy_from_str("latency_based"), Some(LoadBalancingStrategy::LatencyBased));
    assert_eq!(strategy_from_str("LeastLoaded"), None);
    assert_eq!(strategy_from_str("fastest"), None);
}

fn no_file_values() -> FileConfigValues {
    FileConfigValues {
        llm_api_url: None,
        llm_timeout_seconds: None,
        llm_max_concurrent_requests: None,
        llm_models: Vec::new(),
        llm_additional_params: Vec::new(),
        load_balancer_strategy: None,
        load_balancer_max_retries: None,
        load_balancer_selection_timeout_ms: None,
        api_enabled: None,
        api_host: None,
        api_port: None,
        api_auth_enabled: None,
        api_key: None,
        api_rate_limiting_enabled: None,
        api_max_requests_per_minute: None,
        api_metrics_interval_seconds: None,
        api_auth_token: None,
        additional_params: Vec::new(),
    }
}

#[test]
fn from_file_without_values_is_default() {
    let config = BlueprintConfig::from_file(no_file_values());
    assert_eq!(config.llm.api_url, "http://localhost:8000");
    assert_eq!(config.llm.timeout_seconds, 60);
    assert_eq!(config.llm.models.len(), 3);
    assert_eq!(config.load_balancer.strategy, LoadBalancingStrategy::RoundRobin);
    assert_eq!(config.api.port, 3000);
}

#[test]
fn from_file_applies_given_values() {
    let mut vals = no_file_values();
    vals.llm_api_url = Some("http://test-api.com".to_string());
    vals.llm_timeout_seconds = Some(30);
    vals.llm_max_concurrent_requests = Some(10);
    vals.load_balancer_strategy = Some("latency_based".to_string());
    vals.api_port = Some(8080);
    vals.api_auth_token = Some("test-token".to_string());
    let config = BlueprintConfig::from_file(vals);
    assert_eq!(config.llm.api_url, "http://test-api.com");
    assert_eq!(config.llm.timeout_seconds, 30);
    assert_eq!(config.llm.max_concurrent_requests, 10);
    assert_eq!(config.load_balancer.strategy, LoadBalancingStrategy::LatencyBased);
    assert_eq!(config.api.port, 8080);
    assert_eq!(config.api.auth_token.as_deref(), Some("test-token"));
    // Fields the file left out keep their defaults.
    assert_eq!(config.api.host, "0.0.0.0");
    assert_eq!(config.llm.models.len(), 3);
}

#[test]
fn from_file_keeps_default_on_unknown_strategy() {
    let mut vals = no_file_values();
    vals.load_balancer_strategy = Some("fastest".to_string());
    let config = BlueprintConfig::from_file(vals);
    assert_eq!(config.load_balancer.strategy, LoadBalancingStrategy::RoundRobin);
}
