pub mod config;
pub mod models;
pub mod email;
pub mod delivery;
pub mod templates;
