pub mod config;
pub mod models;
pub mod scheduling;
pub mod whiteboard;
pub mod boards;
pub mod collaboration;
pub mod connections;
pub mod calendar;
pub mod notifications;
