//! Verified core of the Antex terminal client: keymap parsing, resolution
//! and conflict validation, text edits, table and diff layout, session state,
//! project instructions, and logins with their saved accounts.

pub mod keys;
pub mod text;
pub mod parse;
pub mod bindings;
pub mod validation;
pub mod keymap_config;
pub mod keymap;
pub mod keymap_defaults;
pub mod keymap_resolve;
pub mod keymap_conflicts;
pub mod session;
pub mod access_token;
pub mod items;
pub mod edit;
pub mod table_layout;
pub mod paths;
pub mod transcript;
pub mod outside;
pub mod browser;
pub mod clipboard;
pub mod auth;
pub mod previews;
pub mod accounts;
pub mod table_metrics;
pub mod project_context;
pub mod skills;
pub mod device_login;
pub mod diff_rows;
pub mod images;
pub mod workflow_models;
pub mod history_replay;
pub mod frame_layout;
pub mod composer_keys;
pub mod agent_status;
pub mod link_suffix;
pub mod sandbox_filter;
pub mod edit_history;
pub mod keymap_laws;
pub mod workspace_files;
