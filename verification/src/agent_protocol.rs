//! The results an agent reports to the hub over its session, and how the
//! hub turns them back into the platform's errors.

use vstd::prelude::*;

use crate::containers::{install_container_name, StartError};
use crate::error::{AppError, AppResult};

verus! {

/// Why an agent-side operation failed.
#[derive(Clone, Copy, Debug, PartialEq, Eq, Structural)]
pub enum AgentErrorKind {
    Unspecified,
    Unavailable,
    StartFailed,
    CommandFailed,
}

/// A failure reported by an agent.
#[derive(Debug, PartialEq, Eq)]
pub struct AgentError {
    pub kind: AgentErrorKind,
    pub message: String,
}

/// The outcome of an agent command that returns nothing on success.
#[derive(Debug, PartialEq, Eq)]
pub enum CommandOutcome {
    Done,
    Error(AgentError),
}

/// An agent command's result; `None` is a malformed (empty) result.
#[derive(Debug, PartialEq, Eq)]
pub struct CommandResult {
    pub result: Option<CommandOutcome>,
}

/// A failure of `kind` with `message`.
pub fn agent_error(kind: AgentErrorKind, message: String) -> (r: AgentError)
    ensures
        r == (AgentError { kind, message }),
{
    AgentError { kind, message }
}

/// Success.
pub fn command_result_ok() -> (r: CommandResult)
    ensures
        r == (CommandResult { result: Some(CommandOutcome::Done) }),
{
    CommandResult { result: Some(CommandOutcome::Done) }
}

/// Failure of `kind` with `message`.
pub fn command_result_err(kind: AgentErrorKind, message: String) -> (r: CommandResult)
    ensures
        r == (CommandResult {
            result: Some(CommandOutcome::Error(AgentError { kind, message })),
        }),
{
    CommandResult { result: Some(CommandOutcome::Error(agent_error(kind, message))) }
}

/// The protocol kind each container failure is reported as.
pub open spec fn start_error_kind(err: StartError) -> AgentErrorKind {
    match err {
        StartError::Unavailable(_) => AgentErrorKind::Unavailable,
        StartError::StartFailed(_) => AgentErrorKind::StartFailed,
        StartError::CommandFailed(_) => AgentErrorKind::CommandFailed,
    }
}

/// The message a container failure carries.
pub open spec fn start_error_message(err: StartError) -> String {
    match err {
        StartError::Unavailable(m) => m,
        StartError::StartFailed(m) => m,
        StartError::CommandFailed(m) => m,
    }
}

/// A container failure as the result the agent reports.
pub fn start_error_to_command_result(err: StartError) -> (r: CommandResult)
    ensures
        r == (CommandResult {
            result: Some(
                CommandOutcome::Error(
                    AgentError { kind: start_error_kind(err), message: start_error_message(err) },
                ),
            ),
        }),
{
    match err {
        StartError::Unavailable(msg) => command_result_err(AgentErrorKind::Unavailable, msg),
        StartError::StartFailed(msg) => command_result_err(AgentErrorKind::StartFailed, msg),
        StartError::CommandFailed(msg) => command_result_err(AgentErrorKind::CommandFailed, msg),
    }
}

/// The platform error an agent failure becomes on the hub.
pub open spec fn app_error_from_agent_spec(err: AgentError) -> AppError {
    match err.kind {
        AgentErrorKind::StartFailed => AppError::ContainerStartFailed(err.message),
        AgentErrorKind::CommandFailed => AppError::CommandFailed(err.message),
        AgentErrorKind::Unavailable | AgentErrorKind::Unspecified => AppError::ContainerUnavailable(
            err.message,
        ),
    }
}

/// An agent failure as a platform error, by kind.
pub fn app_error_from_agent(err: AgentError) -> (r: AppError)
    ensures
        r == app_error_from_agent_spec(err),
{
    match err.kind {
        AgentErrorKind::StartFailed => AppError::ContainerStartFailed(err.message),
        AgentErrorKind::CommandFailed => AppError::CommandFailed(err.message),
        AgentErrorKind::Unavailable | AgentErrorKind::Unspecified => AppError::ContainerUnavailable(
            err.message,
        ),
    }
}

/// An agent command's result as the hub's result: an empty result is
/// itself an agent error.
pub fn command_result_to_app_result(result: CommandResult) -> (r: AppResult<()>)
    ensures
        result.result matches Some(CommandOutcome::Done) ==> r is Ok,
        result.result matches Some(CommandOutcome::Error(e)) ==> r == Err::<(), AppError>(
            app_error_from_agent_spec(e),
        ),
        result.result is None ==> (r matches Err(AppError::AgentError(m)) && m@
            == "agent sent an empty command result"@),
{
    match result.result {
        Some(CommandOutcome::Done) => Ok(()),
        Some(CommandOutcome::Error(err)) => Err(app_error_from_agent(err)),
        None => Err(AppError::AgentError("agent sent an empty command result".to_owned())),
    }
}


/// The platform error a failed agent file-system operation becomes: a
/// failed command stays a command failure, anything else is a failed agent
/// operation.
pub open spec fn fs_agent_error_spec(err: AgentError) -> AppError {
    match err.kind {
        AgentErrorKind::CommandFailed => AppError::CommandFailed(err.message),
        _ => AppError::AgentOperationFailed(err.message),
    }
}

/// A failed agent file-system operation as a platform error.
pub fn fs_agent_error(err: AgentError) -> (r: AppError)
    ensures
        r == fs_agent_error_spec(err),
{
    match err.kind {
        AgentErrorKind::CommandFailed => AppError::CommandFailed(err.message),
        AgentErrorKind::StartFailed | AgentErrorKind::Unavailable | AgentErrorKind::Unspecified => {
            AppError::AgentOperationFailed(err.message)
        },
    }
}

/// A file-system command's result as the hub's result.
pub fn fs_command_result_to_app_result(result: CommandResult) -> (r: AppResult<()>)
    ensures
        result.result matches Some(CommandOutcome::Done) ==> r is Ok,
        result.result matches Some(CommandOutcome::Error(e)) ==> r == Err::<(), AppError>(
            fs_agent_error_spec(e),
        ),
        result.result is None ==> (r matches Err(AppError::AgentError(m)) && m@
            == "agent sent an empty command result"@),
{
    match result.result {
        Some(CommandOutcome::Done) => Ok(()),
        Some(CommandOutcome::Error(err)) => Err(fs_agent_error(err)),
        None => Err(AppError::AgentError("agent sent an empty command result".to_owned())),
    }
}

/// The error for a reply of the wrong kind to operation `op`.
pub fn wrong_payload(op: &str) -> (r: AppError)
    ensures
        r matches AppError::AgentError(m) && m@ == "agent replied to "@ + op@
            + " with the wrong payload type"@,
{
    let mut m = "agent replied to ".to_owned();
    m.append(op);
    m.append(" with the wrong payload type");
    AppError::AgentError(m)
}

/// How waiting for an agent's reply to a call ended.
#[derive(Debug, PartialEq, Eq)]
pub enum CallWait<T> {
    /// The agent replied.
    Replied(T),
    /// The session ended before a reply.
    SessionClosed,
    /// No reply within the call's timeout.
    TimedOut,
}

/// A call's reply, or the error its wait ended in: a closed session means
/// no agent is available, a timeout is its own error.
pub fn call_result<T>(wait: CallWait<T>) -> (r: AppResult<T>)
    ensures
        wait matches CallWait::Replied(p) ==> r == Ok::<T, AppError>(p),
        wait is SessionClosed ==> r == Err::<T, AppError>(AppError::AgentUnavailable),
        wait is TimedOut ==> r == Err::<T, AppError>(AppError::AgentTimeout),
{
    match wait {
        CallWait::Replied(p) => Ok(p),
        CallWait::SessionClosed => Err(AppError::AgentUnavailable),
        CallWait::TimedOut => Err(AppError::AgentTimeout),
    }
}

/// A container failure on an agent arrives at the hub as the matching
/// platform error with the same message: unavailable stays unavailable, a
/// start failure a start failure, a command failure a command failure.
pub proof fn lemma_start_error_reaches_hub(err: StartError)
    ensures
        app_error_from_agent_spec(
            AgentError { kind: start_error_kind(err), message: start_error_message(err) },
        ) == match err {
            StartError::Unavailable(m) => AppError::ContainerUnavailable(m),
            StartError::StartFailed(m) => AppError::ContainerStartFailed(m),
            StartError::CommandFailed(m) => AppError::CommandFailed(m),
        },
{
}

/// The container a stop-and-remove request names: the install container
/// beside the run container when `is_install`.
pub fn stop_target_name(container_name: String, is_install: bool) -> (r: String)
    ensures
        is_install ==> r@ == container_name@ + "-install"@,
        !is_install ==> r@ == container_name@,
{
    if is_install {
        install_container_name(container_name.as_str())
    } else {
        container_name
    }
}

/// The agent's answer to a directory operation: success, or the failure
/// message as an unavailable error.
pub fn dir_op_result(outcome: Result<(), String>) -> (r: CommandResult)
    ensures
        outcome is Ok ==> r == command_result_ok_spec(),
        outcome matches Err(m) ==> r == (CommandResult {
            result: Some(
                CommandOutcome::Error(AgentError { kind: AgentErrorKind::Unavailable, message: m }),
            ),
        }),
{
    match outcome {
        Ok(()) => command_result_ok(),
        Err(msg) => command_result_err(AgentErrorKind::Unavailable, msg),
    }
}

/// How listing the deployment directories ended on the agent.
#[derive(Debug, PartialEq, Eq)]
pub enum DirListOutcome {
    /// The ids of the deployments with a directory.
    Ids(Vec<String>),
    Error(AgentError),
}

/// The agent's reply to a listing of deployment directories; `None` is a
/// malformed (empty) result.
#[derive(Debug, PartialEq, Eq)]
pub struct DirListResult {
    pub result: Option<DirListOutcome>,
}

/// The agent's answer to listing the deployment directories: the ids, or
/// the failure message as an unavailable error.
pub fn dir_list_result(outcome: Result<Vec<String>, String>) -> (r: DirListResult)
    ensures
        outcome matches Ok(ids) ==> r == (DirListResult { result: Some(DirListOutcome::Ids(ids)) }),
        outcome matches Err(m) ==> r == (DirListResult {
            result: Some(
                DirListOutcome::Error(AgentError { kind: AgentErrorKind::Unavailable, message: m }),
            ),
        }),
{
    match outcome {
        Ok(ids) => DirListResult { result: Some(DirListOutcome::Ids(ids)) },
        Err(m) => DirListResult {
            result: Some(
                DirListOutcome::Error(agent_error(AgentErrorKind::Unavailable, m)),
            ),
        },
    }
}

/// The hub's reading of an agent's directory listing: the ids, the failed
/// operation as a platform error, or an empty result as an agent error.
pub fn dir_list_to_app_result(result: DirListResult) -> (r: AppResult<Vec<String>>)
    ensures
        result.result matches Some(DirListOutcome::Ids(ids)) ==> r == Ok::<Vec<String>, AppError>(ids),
        result.result matches Some(DirListOutcome::Error(e)) ==> r == Err::<Vec<String>, AppError>(
            fs_agent_error_spec(e),
        ),
        result.result is None ==> (r matches Err(AppError::AgentError(m)) && m@
            == "agent sent an empty ListDeploymentDirs result"@),
{
    match result.result {
        Some(DirListOutcome::Ids(ids)) => Ok(ids),
        Some(DirListOutcome::Error(err)) => Err(fs_agent_error(err)),
        None => Err(AppError::AgentError("agent sent an empty ListDeploymentDirs result".to_owned())),
    }
}

/// The success result.
pub open spec fn command_result_ok_spec() -> CommandResult {
    CommandResult { result: Some(CommandOutcome::Done) }
}

/// The message an upload ends with when the hub closes the stream before
/// the final chunk.
pub const UPLOAD_CUT_SHORT: &'static str = "hub closed the upload stream before sending a final chunk";

/// Receiving a chunked upload: `Ok(true)` once the final chunk arrived,
/// `Ok(false)` while more are due, and an error when the stream ended
/// (`chunk_is_final` is `None`) before a final chunk.
pub fn upload_progress(chunk_is_final: Option<bool>) -> (r: Result<bool, String>)
    ensures
        chunk_is_final matches Some(f) ==> r == Ok::<bool, String>(f),
        chunk_is_final is None ==> (r matches Err(m) && m@ == UPLOAD_CUT_SHORT@),
{
    match chunk_is_final {
        Some(f) => Ok(f),
        None => Err(UPLOAD_CUT_SHORT.to_owned()),
    }
}

} // verus!
