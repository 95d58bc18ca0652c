//! Gateway settings: the downstream services, security and rate limits, read
//! from the environment; and which service a request path belongs to.
use vstd::prelude::*;
use crate::common::{ServerConfig, RedisConfig, JwtConfig, server_config_matches, redis_config_matches, jwt_config_matches};
use crate::env::{EnvVars, setting_text, setting_num, setting_bool, setting_list};
use crate::table::{Table, table_lookup};
use crate::text::{seq_starts_with, starts_with, own};

verus! {

pub struct ServiceConfig {
    pub name: String,
    pub base_url: String,
    pub health_check_path: String,
    pub timeout_seconds: u64,
    pub retry_attempts: u32,
    pub circuit_breaker: CircuitBreakerConfig,
    pub load_balancer: LoadBalancerConfig,
}

#[derive(PartialEq, Eq, Structural, Clone, Copy, Debug)]
pub struct CircuitBreakerConfig {
    pub failure_threshold: u32,
    pub timeout_seconds: u64,
    pub half_open_max_calls: u32,
}

#[derive(PartialEq, Eq, Structural, Clone, Copy, Debug)]
pub struct LoadBalancerConfig {
    pub strategy: LoadBalancerStrategy,
    pub health_check_interval_seconds: u64,
}

#[derive(PartialEq, Eq, Structural, Clone, Copy, Debug)]
pub enum LoadBalancerStrategy {
    RoundRobin,
    LeastConnections,
    WeightedRoundRobin,
}

/// The integer part of the rate limits; the multiplier for authenticated
/// clients is a float and is kept beside the library's settings.
pub struct RateLimitConfig {
    pub requests_per_minute: u32,
    pub burst_size: u32,
}

pub struct SecurityConfig {
    pub require_https: bool,
    pub allowed_origins: Vec<String>,
    pub max_request_size: usize,
    pub enable_csrf_protection: bool,
}

pub struct GatewayConfig {
    pub server: ServerConfig,
    pub redis: RedisConfig,
    pub jwt: JwtConfig,
    pub services: Table<ServiceConfig>,
    pub rate_limiting: RateLimitConfig,
    pub security: SecurityConfig,
}

/// The fields of a downstream service's settings; every service is checked
/// on `/health` every 30 seconds.
pub open spec fn service_is(
    c: ServiceConfig,
    name: Seq<char>,
    base_url: Seq<char>,
    timeout: u64,
    retries: u32,
    failure_threshold: u32,
    breaker_timeout: u64,
    half_open: u32,
    strategy: LoadBalancerStrategy,
) -> bool {
    &&& c.name@ == name
    &&& c.base_url@ == base_url
    &&& c.health_check_path@ == "/health"@
    &&& c.timeout_seconds == timeout
    &&& c.retry_attempts == retries
    &&& c.circuit_breaker == CircuitBreakerConfig { failure_threshold, timeout_seconds: breaker_timeout, half_open_max_calls: half_open }
    &&& c.load_balancer == LoadBalancerConfig { strategy, health_check_interval_seconds: 30 }
}

/// The services the gateway knows, each under its own name, with its address
/// taken from the environment.
pub open spec fn default_services(t: Seq<(String, ServiceConfig)>, vars: Seq<(String, String)>) -> bool {
    let lb = LoadBalancerStrategy::RoundRobin;
    let lc = LoadBalancerStrategy::LeastConnections;
    &&& t.len() == 9
    &&& forall|i: int| 0 <= i < 9 ==> (#[trigger] t[i]).0@ == t[i].1.name@
    &&& service_is(t[0].1, "user-management"@, setting_text(vars, "USER_MANAGEMENT_URL"@, "http://localhost:8000"@), 30, 3, 5, 60, 3, lb)
    &&& service_is(t[1].1, "chat"@, setting_text(vars, "CHAT_SERVICE_URL"@, "http://localhost:8002"@), 30, 3, 5, 60, 3, lb)
    &&& service_is(t[2].1, "video"@, setting_text(vars, "VIDEO_SERVICE_URL"@, "http://localhost:8003"@), 60, 2, 3, 120, 2, lc)
    &&& service_is(t[3].1, "meetings"@, setting_text(vars, "MEETINGS_SERVICE_URL"@, "http://localhost:8004"@), 30, 3, 5, 60, 3, lb)
    &&& service_is(t[4].1, "payment"@, setting_text(vars, "PAYMENT_SERVICE_URL"@, "http://localhost:8005"@), 45, 2, 3, 120, 2, lb)
    &&& service_is(t[5].1, "safety"@, setting_text(vars, "SAFETY_SERVICE_URL"@, "http://localhost:8007"@), 15, 3, 5, 60, 3, lb)
    &&& service_is(t[6].1, "notifications"@, setting_text(vars, "NOTIFICATIONS_SERVICE_URL"@, "http://localhost:8006"@), 30, 2, 5, 60, 3, lb)
    &&& service_is(t[7].1, "analytics"@, setting_text(vars, "ANALYTICS_SERVICE_URL"@, "http://localhost:8008"@), 60, 2, 3, 120, 2, lb)
    &&& service_is(t[8].1, "video-lectures"@, setting_text(vars, "VIDEO_LECTURES_SERVICE_URL"@, "http://localhost:8009"@), 60, 2, 3, 120, 2, lc)
}

/// The service that serves a request path, by its prefix.
pub open spec fn service_for_path(p: Seq<char>) -> Option<Seq<char>> {
    if seq_starts_with(p, "/auth"@) || seq_starts_with(p, "/users"@) || seq_starts_with(p, "/profiles"@)
        || seq_starts_with(p, "/payment-methods"@) {
        Some("user-management"@)
    } else if seq_starts_with(p, "/chat"@) || seq_starts_with(p, "/messages"@) {
        Some("chat"@)
    } else if seq_starts_with(p, "/video"@) || seq_starts_with(p, "/calls"@) {
        Some("video"@)
    } else if seq_starts_with(p, "/meetings"@) || seq_starts_with(p, "/sessions"@) {
        Some("meetings"@)
    } else if seq_starts_with(p, "/payments"@) || seq_starts_with(p, "/transactions"@)
        || seq_starts_with(p, "/subscriptions"@) {
        Some("payment"@)
    } else if seq_starts_with(p, "/safety"@) || seq_starts_with(p, "/moderation"@) {
        Some("safety"@)
    } else {
        None
    }
}

/// The name of the service that serves a path, if any path prefix names one.
pub fn service_name_for_path(path: &str) -> (r: Option<&'static str>)
    ensures
        match service_for_path(path@) {
            Some(n) => r is Some && r->0@ == n,
            None => r is None,
        },
{
    if starts_with(path, "/auth") || starts_with(path, "/users") || starts_with(path, "/profiles")
        || starts_with(path, "/payment-methods") {
        Some("user-management")
    } else if starts_with(path, "/chat") || starts_with(path, "/messages") {
        Some("chat")
    } else if starts_with(path, "/video") || starts_with(path, "/calls") {
        Some("video")
    } else if starts_with(path, "/meetings") || starts_with(path, "/sessions") {
        Some("meetings")
    } else if starts_with(path, "/payments") || starts_with(path, "/transactions") || starts_with(
        path,
        "/subscriptions",
    ) {
        Some("payment")
    } else if starts_with(path, "/safety") || starts_with(path, "/moderation") {
        Some("safety")
    } else {
        None
    }
}

fn make_service(
    name: &str,
    base_url: String,
    timeout: u64,
    retries: u32,
    failure_threshold: u32,
    breaker_timeout: u64,
    half_open: u32,
    strategy: LoadBalancerStrategy,
) -> (c: ServiceConfig)
    ensures
        service_is(c, name@, base_url@, timeout, retries, failure_threshold, breaker_timeout, half_open, strategy),
{
    ServiceConfig {
        name: own(name),
        base_url,
        health_check_path: own("/health"),
        timeout_seconds: timeout,
        retry_attempts: retries,
        circuit_breaker: CircuitBreakerConfig {
            failure_threshold,
            timeout_seconds: breaker_timeout,
            half_open_max_calls: half_open,
        },
        load_balancer: LoadBalancerConfig { strategy, health_check_interval_seconds: 30 },
    }
}

impl GatewayConfig {
    /// The gateway's settings from the environment.
    pub fn from_env(env: &EnvVars) -> (c: Self)
        ensures
            server_config_matches(c.server, env.vars@, "GATEWAY_HOST"@, "GATEWAY_PORT"@, 8080),
            redis_config_matches(c.redis, env.vars@, 0),
            jwt_config_matches(c.jwt, env.vars@),
            default_services(c.services.entries@, env.vars@),
            c.rate_limiting.requests_per_minute as nat == setting_num(env.vars@, "RATE_LIMIT_RPM"@, u32::MAX as nat, 60),
            c.rate_limiting.burst_size as nat == setting_num(env.vars@, "RATE_LIMIT_BURST"@, u32::MAX as nat, 10),
            c.security.require_https == setting_bool(env.vars@, "REQUIRE_HTTPS"@, false),
            c.security.allowed_origins@.len() == setting_list(env.vars@, "ALLOWED_ORIGINS"@, "*"@).len(),
            forall|i: int| 0 <= i < c.security.allowed_origins@.len() ==> #[trigger] c.security.allowed_origins@[i]@
                == setting_list(env.vars@, "ALLOWED_ORIGINS"@, "*"@)[i],
            c.security.max_request_size as nat == setting_num(env.vars@, "MAX_REQUEST_SIZE"@, usize::MAX as nat, 10485760),
            c.security.enable_csrf_protection == setting_bool(env.vars@, "ENABLE_CSRF"@, false),
    {
        GatewayConfig {
            server: ServerConfig::from_env(env, "GATEWAY_HOST", "GATEWAY_PORT", 8080),
            redis: RedisConfig::from_env(env, 0),
            jwt: JwtConfig::from_env(env),
            services: Self::load_service_configs(env),
            rate_limiting: RateLimitConfig {
                requests_per_minute: env.u32_or("RATE_LIMIT_RPM", 60),
                burst_size: env.u32_or("RATE_LIMIT_BURST", 10),
            },
            security: SecurityConfig {
                require_https: env.bool_or("REQUIRE_HTTPS", false),
                allowed_origins: env.list_or("ALLOWED_ORIGINS", "*"),
                max_request_size: env.usize_or("MAX_REQUEST_SIZE", 10485760),
                enable_csrf_protection: env.bool_or("ENABLE_CSRF", false),
            },
        }
    }

    /// The downstream services, each under its own name.
    pub fn load_service_configs(env: &EnvVars) -> (t: Table<ServiceConfig>)
        ensures
            default_services(t.entries@, env.vars@),
    {
        let lb = LoadBalancerStrategy::RoundRobin;
        let lc = LoadBalancerStrategy::LeastConnections;
        let mut v: Vec<(String, ServiceConfig)> = Vec::new();
        v.push((own("user-management"), make_service("user-management", env.text_or("USER_MANAGEMENT_URL", "http://localhost:8000"), 30, 3, 5, 60, 3, lb)));
        v.push((own("chat"), make_service("chat", env.text_or("CHAT_SERVICE_URL", "http://localhost:8002"), 30, 3, 5, 60, 3, lb)));
        v.push((own("video"), make_service("video", env.text_or("VIDEO_SERVICE_URL", "http://localhost:8003"), 60, 2, 3, 120, 2, lc)));
        v.push((own("meetings"), make_service("meetings", env.text_or("MEETINGS_SERVICE_URL", "http://localhost:8004"), 30, 3, 5, 60, 3, lb)));
        v.push((own("payment"), make_service("payment", env.text_or("PAYMENT_SERVICE_URL", "http://localhost:8005"), 45, 2, 3, 120, 2, lb)));
        v.push((own("safety"), make_service("safety", env.text_or("SAFETY_SERVICE_URL", "http://localhost:8007"), 15, 3, 5, 60, 3, lb)));
        v.push((own("notifications"), make_service("notifications", env.text_or("NOTIFICATIONS_SERVICE_URL", "http://localhost:8006"), 30, 2, 5, 60, 3, lb)));
        v.push((own("analytics"), make_service("analytics", env.text_or("ANALYTICS_SERVICE_URL", "http://localhost:8008"), 60, 2, 3, 120, 2, lb)));
        v.push((own("video-lectures"), make_service("video-lectures", env.text_or("VIDEO_LECTURES_SERVICE_URL", "http://localhost:8009"), 60, 2, 3, 120, 2, lc)));
        Table { entries: v }
    }

    /// The settings of the service that serves `path`.
    pub fn get_service_for_path(&self, path: &str) -> (r: Option<&ServiceConfig>)
        ensures
            match service_for_path(path@) {
                Some(n) => match table_lookup(self.services.entries@, n) {
                    Some(c) => r is Some && *r->0 == c,
                    None => r is None,
                },
                None => r is None,
            },
    {
        match service_name_for_path(path) {
            Some(name) => self.services.get(name),
            None => None,
        }
    }
}

} // verus!
