use linkwithmentor::gateway::proxy::{extract_service_name, is_protected_route, proxy_error_message};
use linkwithmentor::gateway::router::RouteMatcher;

#[test]
fn service_names_follow_path_prefixes() {
    assert_eq!(extract_service_name("/auth/login"), Some("user-management"));
    assert_eq!(extract_service_name("/messages/1"), Some("chat"));
    assert_eq!(extract_service_name("/calls"), Some("video"));
    assert_eq!(extract_service_name("/sessions/x"), Some("meetings"));
    assert_eq!(extract_service_name("/subscriptions"), Some("payment"));
    assert_eq!(extract_service_name("/moderation"), Some("safety"));
    assert_eq!(extract_service_name("/unknown"), None);
}

#[test]
fn protected_routes_need_a_caller() {
    assert!(is_protected_route("/auth/me"));
    assert!(is_protected_route("/payments/42"));
    assert!(!is_protected_route("/auth/login"));
    assert!(!is_protected_route("/health"));
}

#[test]
fn proxy_errors_have_messages() {
    assert_eq!(proxy_error_message(503), "Service temporarily unavailable");
    assert_eq!(proxy_error_message(504), "Request timeout");
    assert_eq!(proxy_error_message(502), "Service connection failed");
    assert_eq!(proxy_error_message(500), "Internal server error");
}

#[test]
fn uuid_shape_check() {
    assert!(RouteMatcher::is_valid_uuid("123e4567-e89b-12d3-a456-426614174000"));
    assert!(!RouteMatcher::is_valid_uuid("not-a-uuid"));
}

#[test]
fn default_service_ports_follow_the_services_table() {
    let env = linkwithmentor::env::EnvVars { vars: Vec::new() };
    let services = linkwithmentor::gateway::config::GatewayConfig::load_service_configs(&env);
    let url = |name: &str| services.get(name).unwrap().base_url.clone();
    assert_eq!(url("user-management"), "http://localhost:8000");
    assert_eq!(url("chat"), "http://localhost:8002");
    assert_eq!(url("safety"), "http://localhost:8007");
    assert_eq!(url("video-lectures"), "http://localhost:8009");
    let chat = linkwithmentor::chat::config::ChatConfig::from_env(&env);
    assert_eq!(chat.server.port, 8002);
    assert_eq!(chat.moderation.safety_service_url, "http://localhost:8007");
    assert_eq!(chat.moderation.max_message_length, 2000);
}

#[test]
fn protected_paths_are_never_public_and_names_match_routes() {
    let rules = linkwithmentor::gateway::auth::RouteAuthRules::new();
    for p in ["/auth/logout", "/auth/me/x", "/chat/1", "/payments", "/subscriptions/a"] {
        assert!(is_protected_route(p));
        assert!(!rules.is_public_route(p));
    }
    assert!(rules.is_public_route("/auth/login"));
    let env = linkwithmentor::env::EnvVars { vars: Vec::new() };
    let router = linkwithmentor::gateway::router::Router::new(
        linkwithmentor::gateway::config::GatewayConfig::load_service_configs(&env),
    );
    for p in ["/auth/login", "/messages/7", "/calls", "/sessions/2", "/moderation/x", "/profiles/me"] {
        assert_eq!(extract_service_name(p), router.find_route(p).map(|r| r.service_name.as_str()));
    }
    assert_eq!(extract_service_name("/analytics"), None);
    assert!(router.find_route("/analytics").is_some());
}
