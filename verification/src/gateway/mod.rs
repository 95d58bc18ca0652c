pub mod config;
pub mod router;
pub mod reply;
pub mod auth;
pub mod middleware;
pub mod proxy;
pub mod pipeline;
pub mod load_balancer;
pub mod service_registry;
pub mod security;
pub mod health;
pub mod monitoring;
pub mod performance;
