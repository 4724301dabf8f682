//! Verified core of the Harpe roleplay backend and its clients.

pub mod api;
pub mod args;
pub mod client;
pub mod commands;
pub mod config;
pub mod domain;
pub mod ids;
pub mod output;
pub mod text;
pub mod time;
pub mod tui;
pub mod pb;
pub mod schema;
pub mod store;
