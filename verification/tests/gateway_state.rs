use linkwithmentor::gateway::config::{CircuitBreakerConfig, LoadBalancerConfig, LoadBalancerStrategy, ServiceConfig};
use linkwithmentor::gateway::health::{
    critical_services_outcome, health_check, metrics_endpoint, redis_readiness_outcome, service_health_check,
};
use linkwithmentor::gateway::load_balancer::{health_from_check, health_url, HealthStatus, LoadBalancer};
use linkwithmentor::gateway::monitoring::{
    error_rate_alert, error_rate_exceeded, prune_alerts, service_health_alerts, Alert, AlertLevel, RequestCounters,
};
use linkwithmentor::gateway::performance::{
    adaptive_timeout_ms, optimize_response, AdaptiveLoadBalancer, CacheManager, CompressionHandler,
    PerformanceCounters, RequestBatcher,
};
use linkwithmentor::gateway::pipeline::{backoff_delay_ms, should_retry};
use linkwithmentor::gateway::service_registry::{
    instance_id, probe_status, rate_health, HealthStatus as InstanceHealth, ServiceRegistry,
};
use linkwithmentor::table::Table;
use linkwithmentor::time::Timestamp;

fn service(name: &str, threshold: u32) -> ServiceConfig {
    ServiceConfig {
        name: name.to_string(),
        base_url: format!("http://{}:8000", name),
        health_check_path: "/health".to_string(),
        timeout_seconds: 30,
        retry_attempts: 3,
        circuit_breaker: CircuitBreakerConfig { failure_threshold: threshold, timeout_seconds: 60, half_open_max_calls: 3 },
        load_balancer: LoadBalancerConfig {
            strategy: LoadBalancerStrategy::RoundRobin,
            health_check_interval_seconds: 30,
        },
    }
}

fn balancer() -> LoadBalancer {
    let mut t = Table::new();
    t.insert("chat", service("chat", 2));
    t.insert("video", service("video", 2));
    LoadBalancer::new(t, 1_000)
}

fn healthy(is_healthy: bool, rt: u64, errors: u32) -> HealthStatus {
    HealthStatus { is_healthy, response_time_ms: rt, error_count: errors, last_error: None }
}

#[test]
fn request_start_and_end_balance_connections() {
    let mut lb = balancer();
    let before = lb.get_service_metrics("chat").unwrap();
    lb.record_request_start("chat");
    assert_eq!(lb.get_service_metrics("chat").unwrap().active_connections, before.active_connections + 1);
    lb.record_request_end("chat", true);
    let after = lb.get_service_metrics("chat").unwrap();
    assert_eq!(after.active_connections, before.active_connections);
    assert_eq!(after.total_requests, before.total_requests + 1);
    assert_eq!(after.successful_requests, before.successful_requests + 1);
    assert!(lb.get_service_metrics("payments").is_none());
}

#[test]
fn failures_open_the_circuit_and_reset_closes_it() {
    let mut lb = balancer();
    assert!(!lb.is_circuit_open("chat", 2_000));
    lb.record_request_end("chat", false);
    lb.record_request_end("chat", false);
    assert!(lb.is_circuit_open("chat", 2_000));
    assert!(!lb.is_circuit_open("chat", 1_000 + 60_000));
    lb.reset_circuit("chat");
    assert!(!lb.is_circuit_open("chat", 2_000));
    assert!(!lb.is_circuit_open("unknown", 2_000));
}

#[test]
fn health_checks_decide_service_urls() {
    let mut lb = balancer();
    assert_eq!(lb.get_service_url("chat"), Some("http://chat:8000".to_string()));
    let h = health_from_check(Ok((false, "503 Service Unavailable")), 12);
    assert!(!h.is_healthy);
    assert_eq!(h.last_error.as_deref(), Some("Health check failed with status: 503 Service Unavailable"));
    lb.apply_health_check("chat", h, 5_000);
    assert_eq!(lb.get_service_url("chat"), None);
    let e = health_from_check(Err("connection refused"), 7);
    assert_eq!(e.response_time_ms, 0);
    assert_eq!(e.last_error.as_deref(), Some("Health check request failed: connection refused"));
    assert_eq!(health_url(&service("chat", 1)), "http://chat:8000/health");
    assert_eq!(lb.get_all_service_health().len(), 2);
}

#[test]
fn gateway_health_summary() {
    let now = Timestamp { secs: 100, nanos: 0 };
    let all = vec![("chat".to_string(), healthy(true, 5, 0)), ("user-management".to_string(), healthy(true, 9, 0))];
    let r = health_check(&all, now);
    assert_eq!((r.status.as_str(), r.status_code), ("healthy", 200));
    assert_eq!(r.services[1].name, "user-management");
    assert_eq!(r.services[0].status, "healthy");
    let some = vec![("chat".to_string(), healthy(false, 5, 2))];
    let r = health_check(&some, now);
    assert_eq!((r.status.as_str(), r.status_code), ("degraded", 503));
    let (code, s) = service_health_check(&some, "chat", now).unwrap();
    assert_eq!((code, s.status.as_str(), s.error_count), (503, "unhealthy", 2));
    let e = service_health_check(&some, "video", now).unwrap_err();
    assert_eq!((e.status, e.message.as_str()), (404, "Service 'video' not found"));
}

#[test]
fn readiness_needs_the_user_service_and_the_store() {
    let up = vec![("user-management".to_string(), healthy(true, 1, 0))];
    let down = vec![("user-management".to_string(), healthy(false, 1, 1))];
    assert!(critical_services_outcome(&up).is_ok());
    assert_eq!(critical_services_outcome(&down).unwrap_err().message, "Critical service 'user-management' is not ready");
    assert_eq!(critical_services_outcome(&vec![]).unwrap_err().message, "Critical service 'user-management' not found");
    assert_eq!(redis_readiness_outcome(true).unwrap(), "Gateway is ready");
    assert_eq!(redis_readiness_outcome(false).unwrap_err().status, 503);
}

#[test]
fn metrics_page_text() {
    let services = vec![("chat".to_string(), healthy(true, 12, 3))];
    let page = metrics_endpoint("0.1.0", &services);
    let expected = "# HELP gateway_info Gateway information\n\
# TYPE gateway_info gauge\n\
gateway_info{version=\"0.1.0\"} 1\n\
# HELP service_health Service health status (1=healthy, 0=unhealthy)\n\
# TYPE service_health gauge\n\
service_health{service=\"chat\"} 1\n\
service_response_time_ms{service=\"chat\"} 12\n\
service_error_count{service=\"chat\"} 3\n";
    assert_eq!(page, expected);
}

#[test]
fn registry_rates_health_after_ten_requests() {
    assert_eq!(rate_health(6, 5, InstanceHealth::Unknown), InstanceHealth::Unhealthy);
    assert_eq!(rate_health(3, 8, InstanceHealth::Unknown), InstanceHealth::Degraded);
    assert_eq!(rate_health(2, 9, InstanceHealth::Unknown), InstanceHealth::Healthy);
    assert_eq!(rate_health(5, 5, InstanceHealth::Unknown), InstanceHealth::Unknown);
    assert_eq!(rate_health(5, 6, InstanceHealth::Healthy), InstanceHealth::Degraded);
    assert_eq!(probe_status(true), InstanceHealth::Healthy);
    assert_eq!(probe_status(false), InstanceHealth::Unhealthy);
}

#[test]
fn registry_counts_results_per_instance() {
    let now = Timestamp { secs: 1700000000, nanos: 0 };
    assert_eq!(instance_id("chat", now), "chat_1700000000");
    let mut r = ServiceRegistry::new();
    r.register_service(&service("chat", 5), now);
    let id = "chat_1700000000";
    for _ in 0..11 {
        r.record_request_result("chat", id, false, 40);
    }
    let all = r.get_all_instances("chat");
    assert_eq!(all.len(), 1);
    assert_eq!(all[0].error_count, 11);
    assert_eq!(all[0].health_status, InstanceHealth::Unhealthy);
    assert!(r.get_healthy_instances("chat").is_empty());
    r.update_health_status("chat", id, InstanceHealth::Healthy, 10, now);
    assert_eq!(r.get_healthy_instances("chat").len(), 1);
    let stats = r.get_service_stats();
    assert_eq!(stats.len(), 1);
    assert_eq!((stats[0].total_instances, stats[0].healthy_instances, stats[0].average_response_time_ms), (1, 1, 10));
    let mut configs = Table::new();
    configs.insert("chat", service("chat", 5));
    let targets = r.health_check_targets(&configs);
    assert_eq!(targets.len(), 1);
    assert_eq!(targets[0].url, "http://chat:8000/health");
}

#[test]
fn alerts_are_raised_and_pruned() {
    assert!(error_rate_exceeded(6, 100));
    assert!(!error_rate_exceeded(5, 100));
    assert!(!error_rate_exceeded(0, 0));
    let a = error_rate_alert("High error rate detected: 6.00%", 1000);
    assert_eq!(a.id, "error_rate_1000");
    assert_eq!(a.level, AlertLevel::Warning);
    let health = vec![("chat".to_string(), "unhealthy".to_string()), ("video".to_string(), "healthy".to_string())];
    let alerts = service_health_alerts(&health, 7);
    assert_eq!(alerts.len(), 1);
    assert_eq!(alerts[0].id, "service_health_chat_7");
    assert_eq!(alerts[0].message, "Service chat is unhealthy");
    assert_eq!(alerts[0].service.as_deref(), Some("chat"));
    let old_resolved = Alert { id: "a".into(), level: AlertLevel::Info, message: "m".into(), service: None, timestamp: 0, resolved: true };
    let old_open = Alert { id: "b".into(), level: AlertLevel::Info, message: "m".into(), service: None, timestamp: 0, resolved: false };
    let mut list = vec![old_resolved, old_open];
    for k in 0..120 {
        list.push(Alert { id: format!("n{}", k), level: AlertLevel::Info, message: "m".into(), service: None, timestamp: 100_000, resolved: true });
    }
    prune_alerts(&mut list, 100_000 + 10);
    assert_eq!(list.len(), 100);
    assert_eq!(list[0].id, "n20");
    let mut few = vec![Alert { id: "x".into(), level: AlertLevel::Error, message: "m".into(), service: None, timestamp: 0, resolved: true }];
    prune_alerts(&mut few, 86_400);
    assert!(few.is_empty());
    let mut c = RequestCounters::new();
    c.record_request(true);
    c.record_request(false);
    assert_eq!((c.total_requests, c.successful_requests, c.failed_requests), (2, 1, 1));
}

#[test]
fn performance_rules() {
    let mut p = PerformanceCounters::new();
    p.record_request("chat", 100, false);
    p.record_request("chat", 50, true);
    let c = *p.service_metrics.get("chat").unwrap();
    assert_eq!((c.requests, c.errors, c.total_response_time_ms), (2, 1, 150));
    assert_eq!((p.total_requests, p.total_response_time_ms), (2, 150));
    assert_eq!(adaptive_timeout_ms(None), 30000);
    assert_eq!(adaptive_timeout_ms(Some(10)), 5000);
    assert_eq!(adaptive_timeout_ms(Some(7000)), 7000);
    assert_eq!(adaptive_timeout_ms(Some(999_999)), 120000);
    assert!(CompressionHandler::should_compress(Some("gzip, br"), Some("application/json; charset=utf-8")));
    assert!(!CompressionHandler::should_compress(Some("br"), Some("application/json")));
    assert!(!CompressionHandler::should_compress(Some("gzip"), Some("image/png")));
    assert!(!CompressionHandler::should_compress(Some("gzip"), None));
    assert_eq!(CompressionHandler::compression_headers()[1].1, "Accept-Encoding");
}

#[test]
fn cache_and_batch_rules() {
    let m = CacheManager::new();
    assert_eq!(m.generate_cache_key("GET", "/users", Some("page=2"), Some("u1")), "gateway_cache:GET:/users?page=2:user:u1");
    assert_eq!(m.generate_cache_key("GET", "/users", None, None), "gateway_cache:GET:/users");
    assert!(m.should_cache("GET", "/users", 200));
    assert!(!m.should_cache("POST", "/users", 200));
    assert!(!m.should_cache("GET", "/users", 404));
    assert!(!m.should_cache("GET", "/payments/1", 200));
    assert!(RequestBatcher::should_batch("/mentor-profiles?x=1"));
    assert!(!RequestBatcher::should_batch("/messages"));
    assert!(RequestBatcher::batch_ready(10, None));
    assert!(RequestBatcher::batch_ready(1, Some(50_000_001)));
    assert!(!RequestBatcher::batch_ready(1, Some(50_000_000)));
    let h = optimize_response(Some("image/png"), 42);
    assert_eq!(h.len(), 3);
    assert_eq!(h[1].1, "public, max-age=31536000");
    assert_eq!(h[2].1, "\"42\"");
    assert_eq!(optimize_response(None, -1)[1].1, "\"-1\"");
}

#[test]
fn fastest_instance_by_mean_response_time() {
    let mut b = AdaptiveLoadBalancer::new();
    let names = vec!["a".to_string(), "b".to_string(), "c".to_string()];
    assert_eq!(b.get_best_instance(&names), Some("a".to_string()));
    assert_eq!(b.get_best_instance(&vec![]), None);
    b.record_response_time("a", 30);
    b.record_response_time("b", 10);
    b.record_response_time("b", 40);
    b.record_response_time("c", 20);
    assert_eq!(b.get_best_instance(&names), Some("c".to_string()));
    for _ in 0..150 {
        b.record_response_time("a", 1);
    }
    assert_eq!(b.service_response_times.get("a").unwrap().len(), 100);
    assert_eq!(b.get_best_instance(&names), Some("a".to_string()));
}

#[test]
fn retries_back_off_exponentially() {
    assert_eq!(backoff_delay_ms(1), 200);
    assert_eq!(backoff_delay_ms(2), 400);
    assert_eq!(backoff_delay_ms(3), 2 * backoff_delay_ms(2));
    assert!(should_retry(0, 3, 503, "chat"));
    assert!(!should_retry(0, 3, 503, "payment"));
    assert!(!should_retry(3, 3, 503, "chat"));
}
