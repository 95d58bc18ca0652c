pub mod config;
pub mod models;
pub mod rooms;
pub mod pubsub;
pub mod websocket;
pub mod messages;
pub mod groups;
pub mod maps;
