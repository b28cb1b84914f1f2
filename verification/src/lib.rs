//! A human-in-the-loop decision gate: the rules and decisions behind asking a
//! person to approve or reject a request over Telegram or Discord.
pub mod text;
pub mod i18n;
pub mod types;
pub mod config;
pub mod providers;
pub mod render;
