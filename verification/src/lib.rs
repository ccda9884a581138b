//! Decision logic of a dynamic DNS updater for Cloudflare A records.

pub mod cloudflare;
pub mod config;
pub mod daemon;
pub mod ip;
pub mod record;
pub mod text;
