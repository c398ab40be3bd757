//! Core of a webhook-driven automation relay for a source-control hosting
//! platform: authentication of inbound notifications, recognition of commands
//! addressed to the bot in issue comments, and the dispatch of reply jobs.

pub mod client;
pub mod command;
pub mod config;
pub mod event;
pub mod http;
pub mod server;
pub mod signature;
pub mod text;
pub mod transport;
pub mod webhook;
pub mod work;

pub use crate::config::Config;
