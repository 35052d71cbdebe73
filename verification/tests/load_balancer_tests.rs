use open_router_core::llm::{ModelInfo, NodeMetrics};
use open_router_core::load_balancer::{
    calculate_capability_score, LoadBalancer, LoadBalancerConfig, LoadBalancingStrategy,
};
use open_router_core::local_llm::{BackendClient, LocalLlmClient, LocalLlmConfig};

fn model(id: &str, ctx: usize) -> ModelInfo {
    ModelInfo {
        id: id.to_string(),
        name: format!("Model {id}"),
        max_context_length: ctx,
        supports_chat: true,
        supports_text: true,
        supports_embeddings: true,
        parameters: Vec::new(),
    }
}

fn client_with_models(models: Vec<ModelInfo>) -> BackendClient {
    BackendClient::Local(LocalLlmClient::new(LocalLlmConfig {
        api_url: "http://localhost:8000".to_string(),
        timeout_seconds: 60,
        max_concurrent_requests: 10,
        models,
        additional_params: Vec::new(),
    }))
}

fn test_client() -> BackendClient {
    client_with_models(vec![model("test-model", 4096)])
}

fn balancer(strategy: LoadBalancingStrategy) -> LoadBalancer {
    LoadBalancer::new(LoadBalancerConfig { strategy, max_retries: 3, selection_timeout_ms: 1000 })
}

fn metrics(active: u32, avg_ms: u64, cpu_bp: u32) -> NodeMetrics {
    NodeMetrics {
        cpu_utilization: cpu_bp,
        memory_utilization: 0,
        gpu_utilization: None,
        requests_per_minute: 0,
        average_response_time_ms: avg_ms,
        active_requests: active,
        last_updated: 0,
    }
}

#[test]
fn test_add_remove_nodes() {
    let mut load_balancer = balancer(LoadBalancingStrategy::RoundRobin);

    load_balancer.add_node("node1".to_string(), test_client());
    load_balancer.add_node("node2".to_string(), test_client());

    // Verify nodes were added
    let nodes = load_balancer.get_all_nodes();
    assert_eq!(nodes.len(), 2);
    assert!(load_balancer.get_node("node1").is_some());
    assert!(load_balancer.get_node("node2").is_some());

    // Remove a node
    let removed = load_balancer.remove_node("node1");
    assert!(removed);

    // Verify node was removed
    let nodes = load_balancer.get_all_nodes();
    assert_eq!(nodes.len(), 1);
    assert!(load_balancer.get_node("node1").is_none());
    assert!(load_balancer.get_node("node2").is_some());

    // Try to remove a non-existent node
    let removed = load_balancer.remove_node("node3");
    assert!(!removed);
}

#[test]
fn re_adding_a_node_overwrites_it() {
    let mut load_balancer = balancer(LoadBalancingStrategy::RoundRobin);
    load_balancer.add_node("node1".to_string(), client_with_models(vec![model("x", 2048)]));
    load_balancer.add_node("node1".to_string(), client_with_models(vec![model("y", 4096)]));
    assert_eq!(load_balancer.get_all_nodes().len(), 1);
    assert!(load_balancer.select_node_for_model("x").is_none());
    assert!(load_balancer.select_node_for_model("y").is_some());
}

#[test]
fn test_update_node_metrics() {
    let mut load_balancer = balancer(LoadBalancingStrategy::RoundRobin);
    load_balancer.add_node("node1".to_string(), test_client());

    let initial = load_balancer.get_node("node1").unwrap().metrics;

    let mut updated = initial;
    updated.cpu_utilization = 8000;
    updated.memory_utilization = 7000;
    updated.gpu_utilization = Some(9000);
    updated.requests_per_minute = 200;
    updated.average_response_time_ms = 300;
    updated.active_requests = 10;

    assert!(load_balancer.update_node_metrics("node1", updated));

    let node = load_balancer.get_node("node1").unwrap();
    assert_eq!(node.metrics.cpu_utilization, updated.cpu_utilization);
    assert_eq!(node.metrics.memory_utilization, updated.memory_utilization);
    assert_eq!(node.metrics.gpu_utilization, updated.gpu_utilization);
    assert_eq!(node.metrics.requests_per_minute, updated.requests_per_minute);
    assert_eq!(node.metrics.average_response_time_ms, updated.average_response_time_ms);
    assert_eq!(node.metrics.active_requests, updated.active_requests);
}

#[test]
fn updating_metrics_twice_is_idempotent() {
    let mut load_balancer = balancer(LoadBalancingStrategy::RoundRobin);
    load_balancer.add_node("node1".to_string(), test_client());
    let snapshot = metrics(7, 250, 4000);

    assert!(load_balancer.update_node_metrics("node1", snapshot));
    let after_first = load_balancer.get_node("node1").unwrap().metrics;
    assert!(load_balancer.update_node_metrics("node1", snapshot));
    let after_second = load_balancer.get_node("node1").unwrap().metrics;
    assert_eq!(after_first, after_second);
    assert_eq!(after_second, snapshot);
}

#[test]
fn updating_a_missing_node_changes_nothing() {
    let mut load_balancer = balancer(LoadBalancingStrategy::RoundRobin);
    assert!(!load_balancer.update_node_metrics("ghost", metrics(1, 1, 1)));
    assert!(!load_balancer.set_node_active("ghost", false));
    assert!(load_balancer.get_all_nodes().is_empty());
}

#[test]
fn test_round_robin_strategy() {
    let mut load_balancer = balancer(LoadBalancingStrategy::RoundRobin);
    load_balancer.add_node("node1".to_string(), test_client());
    load_balancer.add_node("node2".to_string(), test_client());
    load_balancer.add_node("node3".to_string(), test_client());

    let node1 = load_balancer.select_node_for_model("test-model").unwrap();
    let node2 = load_balancer.select_node_for_model("test-model").unwrap();
    let node3 = load_balancer.select_node_for_model("test-model").unwrap();
    let node4 = load_balancer.select_node_for_model("test-model").unwrap();

    // Verify each node is different from the previous one
    assert_ne!(node1.id, node2.id);
    assert_ne!(node2.id, node3.id);
    assert_ne!(node3.id, node4.id);

    // Verify the fourth selection is the same as the first (round robin)
    assert_eq!(node1.id, node4.id);
}

#[test]
fn round_robin_visits_each_node_once_per_cycle() {
    let mut load_balancer = balancer(LoadBalancingStrategy::RoundRobin);
    load_balancer.add_node("a".to_string(), test_client());
    load_balancer.add_node("b".to_string(), test_client());
    load_balancer.add_node("c".to_string(), test_client());

    let mut first_cycle = Vec::new();
    for _ in 0..3 {
        first_cycle.push(load_balancer.select_node_for_model("test-model").unwrap().id);
    }
    let mut sorted = first_cycle.clone();
    sorted.sort();
    assert_eq!(sorted, vec!["a".to_string(), "b".to_string(), "c".to_string()]);

    // The next cycle repeats the same order.
    for expected in &first_cycle {
        let got = load_balancer.select_node_for_model("test-model").unwrap().id;
        assert_eq!(&got, expected);
    }
}

#[test]
fn test_least_loaded_strategy() {
    let mut load_balancer = balancer(LoadBalancingStrategy::LeastLoaded);
    load_balancer.add_node("node1".to_string(), test_client());
    load_balancer.add_node("node2".to_string(), test_client());
    load_balancer.add_node("node3".to_string(), test_client());

    load_balancer.update_node_metrics("node1", metrics(10, 0, 8000));
    load_balancer.update_node_metrics("node2", metrics(3, 0, 3000));
    load_balancer.update_node_metrics("node3", metrics(5, 0, 5000));

    let selected = load_balancer.select_node_for_model("test-model").unwrap();
    assert_eq!(selected.id, "node2");

    load_balancer.update_node_metrics("node2", metrics(15, 0, 9000));

    let selected = load_balancer.select_node_for_model("test-model").unwrap();
    assert_eq!(selected.id, "node3");
}

#[test]
fn least_loaded_breaks_ties_by_node_order() {
    let mut load_balancer = balancer(LoadBalancingStrategy::LeastLoaded);
    load_balancer.add_node("node1".to_string(), test_client());
    load_balancer.add_node("node2".to_string(), test_client());
    load_balancer.update_node_metrics("node1", metrics(4, 0, 0));
    load_balancer.update_node_metrics("node2", metrics(4, 0, 0));
    assert_eq!(load_balancer.select_node_for_model("test-model").unwrap().id, "node1");
}

#[test]
fn latency_based_picks_the_fastest_node() {
    let mut load_balancer = balancer(LoadBalancingStrategy::LatencyBased);
    load_balancer.add_node("slow".to_string(), test_client());
    load_balancer.add_node("fast".to_string(), test_client());
    load_balancer.add_node("medium".to_string(), test_client());
    load_balancer.update_node_metrics("slow", metrics(0, 900, 0));
    load_balancer.update_node_metrics("fast", metrics(0, 40, 0));
    load_balancer.update_node_metrics("medium", metrics(0, 200, 0));
    assert_eq!(load_balancer.select_node_for_model("test-model").unwrap().id, "fast");
}

#[test]
fn test_select_node_for_model() {
    let mut load_balancer = balancer(LoadBalancingStrategy::RoundRobin);
    load_balancer.add_node(
        "node1".to_string(),
        client_with_models(vec![ModelInfo {
            id: "model1".to_string(),
            name: "Model 1".to_string(),
            max_context_length: 4096,
            supports_chat: true,
            supports_text: true,
            supports_embeddings: true,
            parameters: Vec::new(),
        }]),
    );
    load_balancer.add_node(
        "node2".to_string(),
        client_with_models(vec![ModelInfo {
            id: "model2".to_string(),
            name: "Model 2".to_string(),
            max_context_length: 4096,
            supports_chat: true,
            supports_text: true,
            supports_embeddings: true,
            parameters: Vec::new(),
        }]),
    );

    let selected = load_balancer.select_node_for_model("model1").unwrap();
    assert_eq!(selected.id, "node1");

    let selected = load_balancer.select_node_for_model("model2").unwrap();
    assert_eq!(selected.id, "node2");

    let selected = load_balancer.select_node_for_model("model3");
    assert!(selected.is_none());
}

#[test]
fn capability_based_prefers_the_less_utilized_node() {
    let mut load_balancer = balancer(LoadBalancingStrategy::CapabilityBased);
    load_balancer.add_node("busy".to_string(), test_client());
    load_balancer.add_node("idle".to_string(), test_client());
    // Identical nodes except utilization and in-flight requests.
    load_balancer.update_node_metrics("busy", metrics(10, 0, 9000));
    load_balancer.update_node_metrics("idle", metrics(1, 0, 1000));
    let selected = load_balancer.select_node_for_model("test-model").unwrap();
    assert_eq!(selected.id, "idle");
}

#[test]
fn capability_score_has_exact_value() {
    let node = open_router_core::load_balancer::LoadBalancerNode {
        id: "n".to_string(),
        client: test_client(),
        metrics: metrics(10, 0, 9000),
        active: true,
    };
    let info = model("test-model", 4096);
    // 20000 + 2*4096 - 9000 - 0 - 2000*10 = -808
    assert_eq!(calculate_capability_score(&node, &info), -808);
}

#[test]
fn inactive_nodes_are_skipped() {
    let mut load_balancer = balancer(LoadBalancingStrategy::RoundRobin);
    load_balancer.add_node("failing".to_string(), test_client());
    load_balancer.add_node("working".to_string(), test_client());

    assert!(load_balancer.set_node_active("failing", false));
    let selected = load_balancer.select_node_for_model("test-model").unwrap();
    assert_eq!(selected.id, "working");
    assert_eq!(load_balancer.get_active_nodes().len(), 1);

    assert!(load_balancer.set_node_active("failing", true));
    assert_eq!(load_balancer.get_active_nodes().len(), 2);
    let mut seen = std::collections::HashSet::new();
    for _ in 0..10 {
        seen.insert(load_balancer.select_node_for_model("test-model").unwrap().id);
    }
    assert!(seen.contains("failing"));
    assert!(seen.contains("working"));
}

#[test]
fn registering_then_removing_leaves_no_node() {
    let mut load_balancer = balancer(LoadBalancingStrategy::RoundRobin);
    load_balancer.add_node("only".to_string(), test_client());
    assert!(load_balancer.remove_node("only"));
    assert!(load_balancer.select_node_for_model("test-model").is_none());
    assert!(load_balancer.select_node_for_model("anything").is_none());
    assert!(load_balancer.get_all_nodes().is_empty());
}

#[test]
fn empty_pool_selects_no_node() {
    let mut load_balancer = balancer(LoadBalancingStrategy::LeastLoaded);
    assert!(load_balancer.select_node_for_model("test-model").is_none());
}

#[test]
fn score_query_requires_node_and_model() {
    let mut load_balancer = balancer(LoadBalancingStrategy::CapabilityBased);
    load_balancer.add_node("node1".to_string(), test_client());
    assert!(load_balancer.calculate_capability_score_for_model("node1", "test-model").is_some());
    assert!(load_balancer.calculate_capability_score_for_model("node1", "other").is_none());
    assert!(load_balancer.calculate_capability_score_for_model("ghost", "test-model").is_none());
}
