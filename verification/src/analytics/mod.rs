pub mod config;
pub mod models;
pub mod dashboards;
pub mod reports;
