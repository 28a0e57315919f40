//! What the API answers with: users, tokens, hosts and the derived state
//! of deployments.

use vstd::prelude::*;

use crate::error::{AppError, AppResult};
use crate::text::{is_blank, is_blank_str, same_text, trim, trim_spec};

verus! {

/// A user as the API shows it.
#[derive(Debug, PartialEq, Eq)]
pub struct UserView {
    pub username: String,
    pub role: String,
}

/// A stored API token row, less its hash.
#[derive(Debug, PartialEq, Eq)]
pub struct ApiTokenRow {
    pub id: i64,
    pub user_id: i64,
    pub name: String,
    pub token_id: String,
    pub expires_at: i64,
    pub revoked: bool,
    pub created_at: i64,
    pub updated_at: i64,
}

/// An API token as the API shows it - never its id's secret half.
#[derive(Debug, PartialEq, Eq)]
pub struct ApiTokenView {
    pub id: i64,
    pub name: String,
    pub expires_at: i64,
    pub revoked: bool,
    pub created_at: i64,
    pub updated_at: i64,
}

/// The view of a token row.
pub fn api_token_view(token: ApiTokenRow) -> (r: ApiTokenView)
    ensures
        r.id == token.id,
        r.name == token.name,
        r.expires_at == token.expires_at,
        r.revoked == token.revoked,
        r.created_at == token.created_at,
        r.updated_at == token.updated_at,
{
    ApiTokenView {
        id: token.id,
        name: token.name,
        expires_at: token.expires_at,
        revoked: token.revoked,
        created_at: token.created_at,
        updated_at: token.updated_at,
    }
}

/// Returned only when a token is created - `plaintext_token` is shown
/// exactly once and never recoverable afterward (only its hash is stored).
#[derive(Debug, PartialEq, Eq)]
pub struct CreateApiTokenResponse {
    pub token: ApiTokenView,
    pub plaintext_token: String,
}

/// A new token's name: trimmed, and not blank.
pub fn token_name(name: &str) -> (r: AppResult<&str>)
    ensures
        is_blank(name@) ==> (r matches Err(AppError::InvalidName(m)) && m@ == name@),
        !is_blank(name@) ==> (r matches Ok(t) && t@ == trim_spec(name@)),
{
    if is_blank_str(name) {
        Err(AppError::InvalidName(name.to_owned()))
    } else {
        Ok(trim(name))
    }
}

/// An agent host as the API shows it.
#[derive(Debug, PartialEq, Eq)]
pub struct HostView {
    pub id: i64,
    pub name: String,
    pub revoked: bool,
    pub connected: bool,
    pub ip: Option<String>,
    pub last_connected_ip: Option<String>,
    pub last_seen_at: Option<i64>,
    pub created_at: i64,
    pub updated_at: i64,
}

/// Returned only when a host is created - `plaintext_token` is shown
/// exactly once and never recoverable afterward (only its hash is stored).
#[derive(Debug, PartialEq, Eq)]
pub struct CreateHostResponse {
    pub host: HostView,
    pub plaintext_token: String,
}

/// The state of a run-mode deployment's container.
#[derive(Clone, Copy, Debug, PartialEq, Eq, Structural)]
pub enum ContainerStatus {
    Running,
    Stopped,
    Unknown,
}

/// What asking the engine whether a container runs says: running, not
/// running, or unknown when the engine could not be asked.
pub fn container_status(is_running: Result<bool, ()>) -> (r: ContainerStatus)
    ensures
        is_running == Ok::<bool, ()>(true) ==> r == ContainerStatus::Running,
        is_running == Ok::<bool, ()>(false) ==> r == ContainerStatus::Stopped,
        is_running is Err ==> r == ContainerStatus::Unknown,
{
    match is_running {
        Ok(true) => ContainerStatus::Running,
        Ok(false) => ContainerStatus::Stopped,
        Err(()) => ContainerStatus::Unknown,
    }
}

/// Whether `deployment_id` is the active deployment.
pub fn is_active(active_id: Option<&str>, deployment_id: &str) -> (r: bool)
    ensures
        r == (active_id is Some && active_id->0@ == deployment_id@),
{
    match active_id {
        Some(a) => same_text(a, deployment_id),
        None => false,
    }
}

/// A byte count as a `usize`, saturating where it does not fit.
pub fn usize_from_u64(value: u64) -> (r: usize)
    ensures
        value <= usize::MAX ==> r == value,
        value > usize::MAX ==> r == usize::MAX,
{
    if value <= usize::MAX as u64 {
        value as usize
    } else {
        usize::MAX
    }
}


/// The running total of an upload after one more chunk: past
/// `max_upload_bytes` the upload is refused as too large.
pub fn upload_total(total: u64, chunk_len: u64, max_upload_bytes: u64) -> (r: AppResult<u64>)
    ensures
        total + chunk_len <= max_upload_bytes ==> r == Ok::<u64, AppError>((total + chunk_len) as u64),
        total + chunk_len > max_upload_bytes ==> r == Err::<u64, AppError>(AppError::TooLarge),
{
    if total > max_upload_bytes || chunk_len > max_upload_bytes - total {
        Err(AppError::TooLarge)
    } else {
        Ok(total + chunk_len)
    }
}

/// The part of a multipart upload that carries the archive is named
/// `file`; an upload without one is refused.
pub fn upload_field_is_file(field_name: Option<&str>) -> (r: bool)
    ensures
        r == (field_name is Some && field_name->0@ == "file"@),
{
    match field_name {
        Some(n) => same_text(n, "file"),
        None => false,
    }
}

} // verus!
