use vstd::prelude::*;

pub mod text;
pub mod time;
pub mod env;
pub mod table;
pub mod common;
pub mod gateway;
pub mod notifications;
pub mod meetings;
pub mod chat;
pub mod analytics;

verus! {
} // verus!
