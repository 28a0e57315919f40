//! The hub's and the agent's configuration, with the defaults of every
//! optional setting. The files themselves are TOML, parsed by the caller.

use vstd::prelude::*;

use crate::text::{nat_decimal, u64_decimal};

verus! {

/// The port agents dial the hub's gRPC endpoint on.
pub const AGENT_GRPC_PORT: u16 = 50051;

/// How the hub serves HTTPS: `Off` uses `http_port`, `Manual` uses
/// `https_port` - both configurable so local dev can use unprivileged
/// ports.
#[derive(Debug, PartialEq, Eq)]
pub enum TlsConfig {
    Off,
    Manual { cert_path: String, key_path: String },
}

impl Default for TlsConfig {
    fn default() -> (r: Self)
        ensures
            r is Off,
    {
        TlsConfig::Off
    }
}

/// The hub's configuration.
#[derive(Debug, PartialEq, Eq)]
pub struct Config {
    pub data_dir: String,
    pub admin_username: String,
    pub admin_password: String,
    pub base_domain: String,
    pub max_upload_bytes: u64,
    pub max_uncompressed_bytes: u64,
    pub git_fetch_timeout_secs: u64,
    pub install_timeout_secs: u64,
    pub build_timeout_secs: u64,
    pub api_token_max_expiry_days: i64,
    pub enable_mcp: bool,
    pub tls: TlsConfig,
    pub http_port: u16,
    pub https_port: u16,
}

/// 200 MiB.
pub fn default_max_upload_bytes() -> (r: u64)
    ensures
        r == 209_715_200,
{
    209_715_200
}

/// 1 GiB.
pub fn default_max_uncompressed_bytes() -> (r: u64)
    ensures
        r == 1_073_741_824,
{
    1_073_741_824
}

/// One minute.
pub fn default_git_fetch_timeout_secs() -> (r: u64)
    ensures
        r == 60,
{
    60
}

/// Five minutes.
pub fn default_install_timeout_secs() -> (r: u64)
    ensures
        r == 300,
{
    300
}

/// Five minutes.
pub fn default_build_timeout_secs() -> (r: u64)
    ensures
        r == 300,
{
    300
}

/// Thirty days.
pub fn default_api_token_max_expiry_days() -> (r: i64)
    ensures
        r == 30,
{
    30
}

/// Plain HTTP's port.
pub fn default_http_port() -> (r: u16)
    ensures
        r == 80,
{
    80
}

/// HTTPS's port.
pub fn default_https_port() -> (r: u16)
    ensures
        r == 443,
{
    443
}

/// The port the hub listens on: `http_port` without TLS, `https_port`
/// with it.
pub fn listen_port(tls: &TlsConfig, http_port: u16, https_port: u16) -> (r: u16)
    ensures
        tls is Off ==> r == http_port,
        tls is Manual ==> r == https_port,
{
    match tls {
        TlsConfig::Off => http_port,
        TlsConfig::Manual { .. } => https_port,
    }
}

/// An agent's configuration.
#[derive(Debug, PartialEq, Eq)]
pub struct AgentConfig {
    pub data_dir: String,
    pub hub_addr: String,
    /// Pins the hub's gRPC certificate by SHA-256 fingerprint. Unset, the
    /// agent trusts whatever the hub presents on its first connect and
    /// persists that fingerprint for future connects instead.
    pub hub_tls_fingerprint: Option<String>,
}

/// Where an agent keeps its data when not configured.
pub fn default_data_dir() -> (r: String)
    ensures
        r@ == "agent-data"@,
{
    "agent-data".to_owned()
}

/// The hub an agent dials when not configured: this machine, on the gRPC
/// port.
pub fn default_hub_addr() -> (r: String)
    ensures
        r@ == "127.0.0.1:"@ + nat_decimal(AGENT_GRPC_PORT as nat),
{
    let mut s = "127.0.0.1:".to_owned();
    let port = u64_decimal(AGENT_GRPC_PORT as u64);
    s.append(port.as_str());
    s
}

/// The limits and settings request handlers are held to.
#[derive(Debug, PartialEq, Eq)]
pub struct AppStateLimits {
    pub max_upload_bytes: u64,
    pub max_uncompressed_bytes: u64,
    pub base_domain: String,
    pub git_fetch_timeout_secs: u64,
    pub install_timeout_secs: u64,
    pub build_timeout_secs: u64,
    pub api_token_max_expiry_days: i64,
    pub enable_mcp: bool,
}

impl Config {
    /// The limits request handlers are held to, as configured.
    pub fn limits(&self) -> (r: AppStateLimits)
        ensures
            r.max_upload_bytes == self.max_upload_bytes,
            r.max_uncompressed_bytes == self.max_uncompressed_bytes,
            r.base_domain == self.base_domain,
            r.git_fetch_timeout_secs == self.git_fetch_timeout_secs,
            r.install_timeout_secs == self.install_timeout_secs,
            r.build_timeout_secs == self.build_timeout_secs,
            r.api_token_max_expiry_days == self.api_token_max_expiry_days,
            r.enable_mcp == self.enable_mcp,
    {
        AppStateLimits {
            max_upload_bytes: self.max_upload_bytes,
            max_uncompressed_bytes: self.max_uncompressed_bytes,
            base_domain: self.base_domain.clone(),
            git_fetch_timeout_secs: self.git_fetch_timeout_secs,
            install_timeout_secs: self.install_timeout_secs,
            build_timeout_secs: self.build_timeout_secs,
            api_token_max_expiry_days: self.api_token_max_expiry_days,
            enable_mcp: self.enable_mcp,
        }
    }
}

} // verus!
