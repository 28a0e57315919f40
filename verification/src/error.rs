//! The platform's error type and the HTTP status each error answers with.

use vstd::prelude::*;

use crate::models::ModelError;
use crate::text::{i64_decimal, int_decimal};

verus! {

/// Every failure the platform reports. Errors raised by outside libraries
/// (database, zip, I/O, JSON, time) are carried as their message text.
#[derive(Debug, PartialEq, Eq)]
pub enum AppError {
    AppNotFound(String),
    DeploymentNotFound(String),
    AppAlreadyExists(String),
    DeleteActiveDeployment,
    InvalidName(String),
    InvalidRepoUrl(String),
    NotGitSourced(String),
    DeploymentInProgress(String),
    InvalidPublishDir(String),
    InvalidRunConfig(String),
    InvalidBuildConfig(String),
    InvalidEnvVar(String),
    InvalidUsername(String),
    InvalidRole(String),
    InvalidPassword(String),
    UserNotFound(String),
    UserAlreadyExists(String),
    InvalidCredentials,
    PasswordHash(String),
    Unauthenticated,
    Forbidden(String),
    Db(String),
    Git(String),
    ContainerStartFailed(String),
    ContainerUnavailable(String),
    NoContainer(String),
    TooLarge,
    MissingUploadFile,
    Zip(String),
    Multipart(String),
    Io(String),
    Json(String),
    Timestamp(String),
    CorruptData(String),
    /// Retry-after, in whole minutes.
    TooManyLoginAttempts(i64),
    InvalidTokenExpiry(i64),
    TokenNotFound,
    HostNotFound,
    CommandFailed(String),
    AgentError(String),
    AgentOperationFailed(String),
    AgentUnavailable,
    AgentTimeout,
}

pub type AppResult<T> = Result<T, AppError>;

/// The HTTP status each error answers with.
pub open spec fn status_spec(e: AppError) -> u16 {
    match e {
        AppError::AppNotFound(_) | AppError::DeploymentNotFound(_) | AppError::UserNotFound(_)
        | AppError::TokenNotFound | AppError::HostNotFound => 404,
        AppError::AppAlreadyExists(_) | AppError::DeleteActiveDeployment
        | AppError::DeploymentInProgress(_) | AppError::UserAlreadyExists(_) => 409,
        AppError::InvalidName(_) | AppError::InvalidRepoUrl(_) | AppError::NotGitSourced(_)
        | AppError::InvalidPublishDir(_) | AppError::InvalidRunConfig(_)
        | AppError::InvalidBuildConfig(_) | AppError::InvalidEnvVar(_)
        | AppError::InvalidUsername(_) | AppError::InvalidRole(_) | AppError::InvalidPassword(_)
        | AppError::NoContainer(_) | AppError::MissingUploadFile
        | AppError::InvalidTokenExpiry(_) => 400,
        AppError::InvalidCredentials | AppError::Unauthenticated => 401,
        AppError::Forbidden(_) => 403,
        AppError::TooLarge => 413,
        AppError::TooManyLoginAttempts(_) => 429,
        AppError::Git(_) | AppError::ContainerStartFailed(_) | AppError::ContainerUnavailable(_)
        | AppError::CommandFailed(_) | AppError::AgentError(_)
        | AppError::AgentOperationFailed(_) => 502,
        AppError::AgentUnavailable => 503,
        AppError::AgentTimeout => 504,
        AppError::Zip(_) | AppError::Multipart(_) | AppError::Io(_) | AppError::Json(_)
        | AppError::PasswordHash(_) | AppError::Timestamp(_) | AppError::CorruptData(_)
        | AppError::Db(_) => 500,
    }
}

/// The text each error is reported with (the `error` field of the JSON
/// body a failed request answers with).
pub open spec fn message_spec(e: AppError) -> Seq<char> {
    match e {
        AppError::AppNotFound(s) => "app not found: "@ + s@,
        AppError::DeploymentNotFound(s) => "deployment not found: "@ + s@,
        AppError::AppAlreadyExists(s) => "app already exists: "@ + s@,
        AppError::DeleteActiveDeployment => "cannot delete the active deployment"@,
        AppError::InvalidName(s) => "invalid name: "@ + s@,
        AppError::InvalidRepoUrl(s) => "invalid repo url: "@ + s@,
        AppError::NotGitSourced(s) => "app "@ + s@ + " is not git-sourced"@,
        AppError::DeploymentInProgress(s) => "app "@ + s@ + " already has a deployment in progress"@,
        AppError::InvalidPublishDir(s) => "invalid publish dir: "@ + s@,
        AppError::InvalidRunConfig(s) => "invalid run config: "@ + s@,
        AppError::InvalidBuildConfig(s) => "invalid build config: "@ + s@,
        AppError::InvalidEnvVar(s) => "invalid env var key: "@ + s@,
        AppError::InvalidUsername(s) => "invalid username: "@ + s@,
        AppError::InvalidRole(s) => "invalid role: "@ + s@,
        AppError::InvalidPassword(s) => s@,
        AppError::UserNotFound(s) => "user not found: "@ + s@,
        AppError::UserAlreadyExists(s) => "user already exists: "@ + s@,
        AppError::InvalidCredentials => "invalid credentials"@,
        AppError::PasswordHash(s) => "password hashing failed: "@ + s@,
        AppError::Unauthenticated => "not authenticated"@,
        AppError::Forbidden(s) => s@,
        AppError::Db(s) => "database error: "@ + s@,
        AppError::Git(s) => "git fetch failed: "@ + s@,
        AppError::ContainerStartFailed(s) => "container failed to start: "@ + s@,
        AppError::ContainerUnavailable(s) => "container backend unavailable: "@ + s@,
        AppError::NoContainer(s) => "deployment "@ + s@ + " has no container"@,
        AppError::TooLarge => "upload too large"@,
        AppError::MissingUploadFile => "missing 'file' field in upload"@,
        AppError::Zip(s) => "zip error: "@ + s@,
        AppError::Multipart(s) => s@,
        AppError::Io(s) => s@,
        AppError::Json(s) => s@,
        AppError::Timestamp(s) => s@,
        AppError::CorruptData(s) => "corrupt database row: "@ + s@,
        AppError::TooManyLoginAttempts(m) => "too many failed login attempts, try again in "@
            + int_decimal(m as int) + " minutes"@,
        AppError::InvalidTokenExpiry(t) => "invalid token expiry: "@ + int_decimal(t as int),
        AppError::TokenNotFound => "api token not found"@,
        AppError::HostNotFound => "host not found"@,
        AppError::CommandFailed(s) => "command failed: "@ + s@,
        AppError::AgentError(s) => "agent error: "@ + s@,
        AppError::AgentOperationFailed(s) => "agent operation failed: "@ + s@,
        AppError::AgentUnavailable => "no agent is connected"@,
        AppError::AgentTimeout => "agent did not answer in time"@,
    }
}

/// `prefix` followed by `s`.
fn prefixed(prefix: &str, s: &str) -> (r: String)
    ensures
        r@ == prefix@ + s@,
{
    let mut m = prefix.to_owned();
    m.append(s);
    m
}

/// `prefix`, `s`, then `suffix`.
fn wrapped(prefix: &str, s: &str, suffix: &str) -> (r: String)
    ensures
        r@ == prefix@ + s@ + suffix@,
{
    let mut m = prefix.to_owned();
    m.append(s);
    m.append(suffix);
    m
}

impl AppError {
    /// The HTTP status this error answers with.
    pub fn status(&self) -> (r: u16)
        ensures
            r == status_spec(*self),
    {
        match self {
            AppError::AppNotFound(_) | AppError::DeploymentNotFound(_) | AppError::UserNotFound(_)
            | AppError::TokenNotFound | AppError::HostNotFound => 404,
            AppError::AppAlreadyExists(_) | AppError::DeleteActiveDeployment
            | AppError::DeploymentInProgress(_) | AppError::UserAlreadyExists(_) => 409,
            AppError::InvalidName(_) | AppError::InvalidRepoUrl(_) | AppError::NotGitSourced(_)
            | AppError::InvalidPublishDir(_) | AppError::InvalidRunConfig(_)
            | AppError::InvalidBuildConfig(_) | AppError::InvalidEnvVar(_)
            | AppError::InvalidUsername(_) | AppError::InvalidRole(_)
            | AppError::InvalidPassword(_) | AppError::NoContainer(_)
            | AppError::MissingUploadFile | AppError::InvalidTokenExpiry(_) => 400,
            AppError::InvalidCredentials | AppError::Unauthenticated => 401,
            AppError::Forbidden(_) => 403,
            AppError::TooLarge => 413,
            AppError::TooManyLoginAttempts(_) => 429,
            AppError::Git(_) | AppError::ContainerStartFailed(_)
            | AppError::ContainerUnavailable(_) | AppError::CommandFailed(_)
            | AppError::AgentError(_) | AppError::AgentOperationFailed(_) => 502,
            AppError::AgentUnavailable => 503,
            AppError::AgentTimeout => 504,
            AppError::Zip(_) | AppError::Multipart(_) | AppError::Io(_) | AppError::Json(_)
            | AppError::PasswordHash(_) | AppError::Timestamp(_) | AppError::CorruptData(_)
            | AppError::Db(_) => 500,
        }
    }


    /// The text this error is reported with.
    pub fn message(&self) -> (r: String)
        ensures
            r@ == message_spec(*self),
    {
        match self {
            AppError::AppNotFound(s) => prefixed("app not found: ", s.as_str()),
            AppError::DeploymentNotFound(s) => prefixed("deployment not found: ", s.as_str()),
            AppError::AppAlreadyExists(s) => prefixed("app already exists: ", s.as_str()),
            AppError::DeleteActiveDeployment => "cannot delete the active deployment".to_owned(),
            AppError::InvalidName(s) => prefixed("invalid name: ", s.as_str()),
            AppError::InvalidRepoUrl(s) => prefixed("invalid repo url: ", s.as_str()),
            AppError::NotGitSourced(s) => wrapped("app ", s.as_str(), " is not git-sourced"),
            AppError::DeploymentInProgress(s) => wrapped(
                "app ",
                s.as_str(),
                " already has a deployment in progress",
            ),
            AppError::InvalidPublishDir(s) => prefixed("invalid publish dir: ", s.as_str()),
            AppError::InvalidRunConfig(s) => prefixed("invalid run config: ", s.as_str()),
            AppError::InvalidBuildConfig(s) => prefixed("invalid build config: ", s.as_str()),
            AppError::InvalidEnvVar(s) => prefixed("invalid env var key: ", s.as_str()),
            AppError::InvalidUsername(s) => prefixed("invalid username: ", s.as_str()),
            AppError::InvalidRole(s) => prefixed("invalid role: ", s.as_str()),
            AppError::InvalidPassword(s) => s.clone(),
            AppError::UserNotFound(s) => prefixed("user not found: ", s.as_str()),
            AppError::UserAlreadyExists(s) => prefixed("user already exists: ", s.as_str()),
            AppError::InvalidCredentials => "invalid credentials".to_owned(),
            AppError::PasswordHash(s) => prefixed("password hashing failed: ", s.as_str()),
            AppError::Unauthenticated => "not authenticated".to_owned(),
            AppError::Forbidden(s) => s.clone(),
            AppError::Db(s) => prefixed("database error: ", s.as_str()),
            AppError::Git(s) => prefixed("git fetch failed: ", s.as_str()),
            AppError::ContainerStartFailed(s) => prefixed("container failed to start: ", s.as_str()),
            AppError::ContainerUnavailable(s) => prefixed(
                "container backend unavailable: ",
                s.as_str(),
            ),
            AppError::NoContainer(s) => wrapped("deployment ", s.as_str(), " has no container"),
            AppError::TooLarge => "upload too large".to_owned(),
            AppError::MissingUploadFile => "missing 'file' field in upload".to_owned(),
            AppError::Zip(s) => prefixed("zip error: ", s.as_str()),
            AppError::Multipart(s) => s.clone(),
            AppError::Io(s) => s.clone(),
            AppError::Json(s) => s.clone(),
            AppError::Timestamp(s) => s.clone(),
            AppError::CorruptData(s) => prefixed("corrupt database row: ", s.as_str()),
            AppError::TooManyLoginAttempts(m) => {
                let n = i64_decimal(*m);
                wrapped("too many failed login attempts, try again in ", n.as_str(), " minutes")
            },
            AppError::InvalidTokenExpiry(t) => {
                let n = i64_decimal(*t);
                prefixed("invalid token expiry: ", n.as_str())
            },
            AppError::TokenNotFound => "api token not found".to_owned(),
            AppError::HostNotFound => "host not found".to_owned(),
            AppError::CommandFailed(s) => prefixed("command failed: ", s.as_str()),
            AppError::AgentError(s) => prefixed("agent error: ", s.as_str()),
            AppError::AgentOperationFailed(s) => prefixed("agent operation failed: ", s.as_str()),
            AppError::AgentUnavailable => "no agent is connected".to_owned(),
            AppError::AgentTimeout => "agent did not answer in time".to_owned(),
        }
    }

    /// Only a server fault (a 5xx) is worth an error-level log; every 4xx
    /// is routine.
    pub fn is_server_error(&self) -> (r: bool)
        ensures
            r == (500 <= status_spec(*self) < 600),
    {
        let s = self.status();
        500 <= s && s < 600
    }

    /// The same failure as a model validation error, variant for variant.
    pub fn from_model(err: ModelError) -> (r: AppError)
        ensures
            err matches ModelError::InvalidName(s) ==> r == AppError::InvalidName(s),
            err matches ModelError::InvalidRepoUrl(s) ==> r == AppError::InvalidRepoUrl(s),
            err matches ModelError::InvalidRunConfig(s) ==> r == AppError::InvalidRunConfig(s),
            err matches ModelError::InvalidBuildConfig(s) ==> r == AppError::InvalidBuildConfig(s),
            err matches ModelError::InvalidEnvVar(s) ==> r == AppError::InvalidEnvVar(s),
    {
        match err {
            ModelError::InvalidName(s) => AppError::InvalidName(s),
            ModelError::InvalidRepoUrl(s) => AppError::InvalidRepoUrl(s),
            ModelError::InvalidRunConfig(s) => AppError::InvalidRunConfig(s),
            ModelError::InvalidBuildConfig(s) => AppError::InvalidBuildConfig(s),
            ModelError::InvalidEnvVar(s) => AppError::InvalidEnvVar(s),
        }
    }
}

} // verus!
