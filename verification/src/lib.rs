//! Berth: the verified core of a self-hostable deploy platform.

pub mod text;
pub mod tls;
pub mod user_admin;
pub mod views;
pub mod zip_extract;
pub mod models;
pub mod host_routing;
pub mod layout;
pub mod lifecycle;
pub mod error;
pub mod forms;
pub mod git_fetch;
pub mod relay;
pub mod secrets;
pub mod crypto;
pub mod accounts;
pub mod agent_protocol;
pub mod agent_session;
pub mod api_tokens;
pub mod auth;
pub mod authz;
pub mod config;
pub mod containers;
pub mod dashboard_assets;
pub mod db;
pub mod deployment_logs;
