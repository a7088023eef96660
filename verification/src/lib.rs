//! Verified models of the open-source builds of Warp's application shims:
//! search helpers, slash commands, settings, settings pages, tab configs,
//! terminal view models, editor shims, managed secrets and watchers.
pub mod terminal_views;
pub mod text;
pub mod text_lines;
pub mod ai_settings;
pub mod ambient_agent;
pub mod ambient_views;
pub mod blocks;
pub mod editor;
pub mod files;
pub mod ids;
pub mod integrations;
pub mod keyed;
pub mod managed_secrets;
pub mod search;
pub mod server;
pub mod settings_pages;
pub mod slash_commands;
pub mod tab_configs;
pub mod watcher;
