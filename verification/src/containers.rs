//! Run-mode containers: their deterministic names, the configuration they
//! are created with, and how a container start or one-shot command is
//! decided and reported. The container engine itself is driven by the
//! caller, which performs each step this module decides.

use vstd::prelude::*;

use crate::models::EnvVar;
use crate::text::{u64_decimal, i64_decimal, nat_decimal, int_decimal};

verus! {

/// Every run-mode container joins this network - the hub dials a
/// container's IP on it directly instead of publishing host ports.
pub const NETWORK_NAME: &'static str = "oxde-run";

/// Memory cap of a run-mode container (512 MiB).
pub const DEFAULT_MEMORY_BYTES: i64 = 536_870_912;

/// CPU cap of a run-mode container: one vCPU.
pub const DEFAULT_NANO_CPUS: i64 = 1_000_000_000;

/// Where the checkout is mounted inside a container.
pub const APP_DIR: &'static str = "/app";

/// Deterministic, so startup reconciliation can look containers up by name.
pub fn container_name(app_id: &str, deployment_id: &str) -> (r: String)
    ensures
        r@ == "oxde-"@ + app_id@ + "-"@ + deployment_id@,
{
    let mut s = "oxde-".to_owned();
    s.append(app_id);
    s.append("-");
    s.append(deployment_id);
    s
}

/// Exposed so the logs endpoint can stream from it before `parent_name`
/// itself exists.
pub fn install_container_name(parent_name: &str) -> (r: String)
    ensures
        r@ == parent_name@ + "-install"@,
{
    let mut s = parent_name.to_owned();
    s.append("-install");
    s
}

/// Name of the one-shot container a build command runs in.
pub fn build_container_name(parent_name: &str) -> (r: String)
    ensures
        r@ == parent_name@ + "-build"@,
{
    let mut s = parent_name.to_owned();
    s.append("-build");
    s
}

/// `KEY=value` for one variable (the payload of either kind of value).
pub open spec fn env_string_spec(v: EnvVar) -> Seq<char> {
    v.key@ + "="@ + v.value.payload()
}

/// `KEY=value` for each variable, in order.
pub fn env_strings(env_vars: &[EnvVar]) -> (r: Vec<String>)
    ensures
        r@.len() == env_vars@.len(),
        forall|i: int| 0 <= i < r@.len() ==> #[trigger] r@[i]@ == env_string_spec(env_vars@[i]),
{
    let mut out: Vec<String> = Vec::new();
    let mut i: usize = 0;
    while i < env_vars.len()
        invariant
            0 <= i <= env_vars@.len(),
            out@.len() == i,
            forall|j: int| 0 <= j < i ==> #[trigger] out@[j]@ == env_string_spec(env_vars@[j]),
        decreases env_vars@.len() - i,
    {
        let v = &env_vars[i];
        let mut s = v.key.clone();
        s.append("=");
        s.append(v.value.as_str());
        out.push(s);
        i = i + 1;
    }
    out
}

/// The bind that mounts a checkout at `/app`.
pub fn bind_mount(checkout_dir: &str) -> (r: String)
    ensures
        r@ == checkout_dir@ + ":/app"@,
{
    let mut s = checkout_dir.to_owned();
    s.append(":/app");
    s
}

/// Failure kind, so the caller can pick the right protocol error kind
/// without string-matching a message.
#[derive(Debug, PartialEq, Eq)]
pub enum StartError {
    Unavailable(String),
    StartFailed(String),
    CommandFailed(String),
}

/// A run-mode container's configuration.
#[derive(Debug, PartialEq, Eq)]
pub struct RunContainerConfig {
    pub image: String,
    pub install_command: Option<String>,
    pub start_command: String,
    pub env_vars: Vec<EnvVar>,
    pub install_timeout_secs: u64,
}

/// What a container is created with.
#[derive(Debug, PartialEq, Eq)]
pub struct ContainerSpec {
    pub image: String,
    pub working_dir: String,
    /// Always `sh -c <command>`.
    pub cmd: Vec<String>,
    pub env: Vec<String>,
    pub binds: Vec<String>,
    /// Restarted by the engine unless explicitly stopped.
    pub restart_unless_stopped: bool,
    /// The network it joins, if any.
    pub network: Option<String>,
    pub memory_bytes: Option<i64>,
    pub nano_cpus: Option<i64>,
}

/// The three words of a shell command line.
pub open spec fn shell_cmd_spec(cmd: Seq<String>, command: Seq<char>) -> bool {
    cmd.len() == 3 && cmd[0]@ == "sh"@ && cmd[1]@ == "-c"@ && cmd[2]@ == command
}

/// `sh -c <command>`.
fn shell_cmd(command: &str) -> (r: Vec<String>)
    ensures
        shell_cmd_spec(r@, command@),
{
    let mut cmd: Vec<String> = Vec::new();
    cmd.push("sh".to_owned());
    cmd.push("-c".to_owned());
    cmd.push(command.to_owned());
    cmd
}

/// The long-lived container of a run-mode deployment: the start command
/// under `sh -c` in `/app` (the mounted checkout), the app's variables in
/// its environment, restarted unless stopped, on the run network, capped
/// at `DEFAULT_MEMORY_BYTES` and one vCPU.
pub fn run_container_spec(checkout_dir: &str, config: &RunContainerConfig) -> (r: ContainerSpec)
    ensures
        r.image@ == config.image@,
        r.working_dir@ == APP_DIR@,
        shell_cmd_spec(r.cmd@, config.start_command@),
        r.env@.len() == config.env_vars@.len(),
        forall|i: int| 0 <= i < r.env@.len() ==> #[trigger] r.env@[i]@ == env_string_spec(config.env_vars@[i]),
        r.binds@.len() == 1 && r.binds@[0]@ == checkout_dir@ + ":/app"@,
        r.restart_unless_stopped,
        r.network matches Some(n) && n@ == NETWORK_NAME@,
        r.memory_bytes == Some(DEFAULT_MEMORY_BYTES),
        r.nano_cpus == Some(DEFAULT_NANO_CPUS),
{
    let mut binds: Vec<String> = Vec::new();
    binds.push(bind_mount(checkout_dir));
    ContainerSpec {
        image: config.image.clone(),
        working_dir: APP_DIR.to_owned(),
        cmd: shell_cmd(config.start_command.as_str()),
        env: env_strings(config.env_vars.as_slice()),
        binds,
        restart_unless_stopped: true,
        network: Some(NETWORK_NAME.to_owned()),
        memory_bytes: Some(DEFAULT_MEMORY_BYTES),
        nano_cpus: Some(DEFAULT_NANO_CPUS),
    }
}

/// A one-shot container for an install or build command: the command
/// under `sh -c` in `/app`, the app's variables in its environment, no
/// restart policy, network or caps.
pub fn command_container_spec(
    checkout_dir: &str,
    image: &str,
    command: &str,
    env_vars: &[EnvVar],
) -> (r: ContainerSpec)
    ensures
        r.image@ == image@,
        r.working_dir@ == APP_DIR@,
        shell_cmd_spec(r.cmd@, command@),
        r.env@.len() == env_vars@.len(),
        forall|i: int| 0 <= i < r.env@.len() ==> #[trigger] r.env@[i]@ == env_string_spec(env_vars@[i]),
        r.binds@.len() == 1 && r.binds@[0]@ == checkout_dir@ + ":/app"@,
        !r.restart_unless_stopped,
        r.network is None,
        r.memory_bytes is None,
        r.nano_cpus is None,
{
    let mut binds: Vec<String> = Vec::new();
    binds.push(bind_mount(checkout_dir));
    ContainerSpec {
        image: image.to_owned(),
        working_dir: APP_DIR.to_owned(),
        cmd: shell_cmd(command),
        env: env_strings(env_vars),
        binds,
        restart_unless_stopped: false,
        network: None,
        memory_bytes: None,
        nano_cpus: None,
    }
}

/// What starting a run-mode container comes down to, given what the engine
/// reports of the name.
#[derive(Clone, Copy, Debug, PartialEq, Eq, Structural)]
pub enum StartStep {
    /// Running already: nothing to do.
    AlreadyRunning,
    /// Created before (running or merely stopped): start it as it is.
    StartExisting,
    /// Pull the image, run the install command if any, create and start:
    /// the steps `next_start_action` sequences, from `PullImage`.
    CreateNew,
}

/// Idempotent: a container with the name already existing (running or
/// merely stopped) is started/left alone rather than recreated, since the
/// same deterministic name always means the same deployment and config.
pub fn start_step(running: bool, exists: bool) -> (r: StartStep)
    ensures
        running ==> r == StartStep::AlreadyRunning,
        !running && exists ==> r == StartStep::StartExisting,
        !running && !exists ==> r == StartStep::CreateNew,
{
    if running {
        StartStep::AlreadyRunning
    } else if exists {
        StartStep::StartExisting
    } else {
        StartStep::CreateNew
    }
}

/// How waiting on a one-shot command's container ended.
#[derive(Debug, PartialEq, Eq)]
pub enum CommandWait {
    /// Exited with status 0.
    Exited,
    /// Exited non-zero, with the engine's error text.
    ExitedWithError { code: i64, error: String },
    /// The wait itself failed, with the engine's message.
    WaitFailed(String),
    /// Did not finish within the timeout.
    TimedOut,
}

/// Reports how a one-shot command ended: exit 0 is success, a non-zero
/// exit or a timeout is a command failure naming the exit code or the
/// timeout, and a failed wait is a start failure.
pub fn command_outcome(wait: CommandWait, timeout_secs: u64) -> (r: Result<(), StartError>)
    ensures
        wait is Exited ==> r is Ok,
        wait matches CommandWait::ExitedWithError { code, error } ==> (r matches Err(
            StartError::CommandFailed(m),
        ) && m@ == "command exited "@ + int_decimal(code as int) + ": "@ + error@),
        wait matches CommandWait::WaitFailed(e) ==> (r matches Err(StartError::StartFailed(m))
            && m@ == e@),
        wait is TimedOut ==> (r matches Err(StartError::CommandFailed(m)) && m@
            == "command timed out after "@ + nat_decimal(timeout_secs as nat) + "s"@),
{
    match wait {
        CommandWait::Exited => Ok(()),
        CommandWait::ExitedWithError { code, error } => {
            let mut m = "command exited ".to_owned();
            let c = i64_decimal(code);
            m.append(c.as_str());
            m.append(": ");
            m.append(error.as_str());
            Err(StartError::CommandFailed(m))
        },
        CommandWait::WaitFailed(message) => Err(StartError::StartFailed(message)),
        CommandWait::TimedOut => {
            let mut m = "command timed out after ".to_owned();
            let t = u64_decimal(timeout_secs);
            m.append(t.as_str());
            m.append("s");
            Err(StartError::CommandFailed(m))
        },
    }
}

/// Whether a one-shot command's container is stopped at once when waiting
/// on it ends, rather than left to the removal after the grace period:
/// exactly when the command outran its timeout.
pub fn stop_after_wait(wait: &CommandWait) -> (r: bool)
    ensures
        r <==> wait is TimedOut,
{
    match wait {
        CommandWait::TimedOut => true,
        _ => false,
    }
}

/// The steps of starting a run-mode container that does not exist yet, in
/// order.
#[derive(Clone, Copy, Debug, PartialEq, Eq, Structural)]
pub enum StartAction {
    /// Make sure the image is present.
    PullImage,
    /// Run the install command to completion in its own container.
    RunInstall,
    /// Create the run container.
    CreateContainer,
    /// Start it.
    StartContainer,
}

/// What follows a step of a fresh start.
#[derive(Clone, Copy, Debug, PartialEq, Eq, Structural)]
pub enum StartNext {
    Run(StartAction),
    /// Started.
    Done,
    /// The step failed: the start fails with its error, and nothing after
    /// it is done.
    Fail,
}

/// The step after `action` of a fresh start, given whether the app has an
/// install command and whether `action` succeeded.
pub open spec fn next_start_spec(has_install: bool, action: StartAction, succeeded: bool) -> StartNext {
    if !succeeded {
        StartNext::Fail
    } else {
        match action {
            StartAction::PullImage => if has_install {
                StartNext::Run(StartAction::RunInstall)
            } else {
                StartNext::Run(StartAction::CreateContainer)
            },
            StartAction::RunInstall => StartNext::Run(StartAction::CreateContainer),
            StartAction::CreateContainer => StartNext::Run(StartAction::StartContainer),
            StartAction::StartContainer => StartNext::Done,
        }
    }
}

/// A fresh start pulls the image, runs the install command if there is
/// one, then creates and starts the container; the first failing step
/// ends the start with its error.
pub fn next_start_action(has_install: bool, action: StartAction, succeeded: bool) -> (r: StartNext)
    ensures
        r == next_start_spec(has_install, action, succeeded),
        !succeeded ==> r == StartNext::Fail,
        r == StartNext::Done ==> action == StartAction::StartContainer && succeeded,
        r == StartNext::Run(StartAction::CreateContainer) ==> succeeded && (action
            == StartAction::RunInstall || (action == StartAction::PullImage && !has_install)),
{
    if !succeeded {
        return StartNext::Fail;
    }
    match action {
        StartAction::PullImage => if has_install {
            StartNext::Run(StartAction::RunInstall)
        } else {
            StartNext::Run(StartAction::CreateContainer)
        },
        StartAction::RunInstall => StartNext::Run(StartAction::CreateContainer),
        StartAction::CreateContainer => StartNext::Run(StartAction::StartContainer),
        StartAction::StartContainer => StartNext::Done,
    }
}

/// The run container is created only after a successful install (or,
/// with no install command, a successful pull): a failed or timed-out
/// install leaves no run container behind.
pub proof fn lemma_failed_install_creates_nothing(has_install: bool, action: StartAction, succeeded: bool)
    ensures
        next_start_spec(has_install, action, succeeded) == StartNext::Run(StartAction::CreateContainer)
            ==> succeeded && (action == StartAction::RunInstall || (action == StartAction::PullImage
            && !has_install)),
        has_install ==> next_start_spec(has_install, StartAction::PullImage, true) == StartNext::Run(
            StartAction::RunInstall,
        ),
        next_start_spec(has_install, StartAction::RunInstall, false) == StartNext::Fail,
{
}

/// Any failed step of a fresh start ends it with that step's error -
/// pulling, installing, creating or starting alike - and a start is
/// reported done only once the final start of the container succeeded.
pub proof fn lemma_failed_step_ends_start(has_install: bool, action: StartAction, succeeded: bool)
    ensures
        forall|a: StartAction, h: bool| #[trigger] next_start_spec(h, a, false) == StartNext::Fail,
        next_start_spec(has_install, action, succeeded) == StartNext::Done ==> action
            == StartAction::StartContainer && succeeded,
        next_start_spec(has_install, StartAction::StartContainer, true) == StartNext::Done,
{
}

/// The CPU figures a stats sample reports, where it reports them: the
/// container's total CPU time, the system's, and the CPUs online.
#[derive(Clone, Copy, Debug, PartialEq, Eq)]
pub struct CpuStats {
    pub total_usage: Option<u64>,
    pub system_cpu_usage: Option<u64>,
    pub online_cpus: Option<u32>,
}

/// `a - b`, or 0 where `b` is larger.
pub open spec fn sub_or_zero(a: u64, b: u64) -> u64 {
    if a >= b {
        (a - b) as u64
    } else {
        0
    }
}

/// What the CPU share between two samples is computed from: the container's
/// and the system's CPU time since the previous sample, and the CPUs
/// online; `None` (a 0% share) where a figure is missing or no system time
/// has passed.
pub open spec fn cpu_deltas_spec(cpu_stats: Option<CpuStats>, precpu_stats: Option<CpuStats>) -> Option<(u64, u64, u32)> {
    match (cpu_stats, precpu_stats) {
        (Some(c), Some(p)) => match (
            c.total_usage,
            p.total_usage,
            c.system_cpu_usage,
            p.system_cpu_usage,
            c.online_cpus,
        ) {
            (Some(total), Some(pretotal), Some(system), Some(presystem), Some(online)) => {
                if system > presystem {
                    Some((sub_or_zero(total, pretotal), (system - presystem) as u64, online))
                } else {
                    None
                }
            },
            _ => None,
        },
        _ => None,
    }
}

/// The container's CPU time, the system's CPU time (never 0) and the CPUs
/// online between the previous sample and this one; the share itself,
/// `container / system * cpus * 100`, is a fraction.
pub fn cpu_deltas(cpu_stats: Option<CpuStats>, precpu_stats: Option<CpuStats>) -> (r: Option<(u64, u64, u32)>)
    ensures
        r == cpu_deltas_spec(cpu_stats, precpu_stats),
{
    let (c, p) = match (cpu_stats, precpu_stats) {
        (Some(c), Some(p)) => (c, p),
        _ => return None,
    };
    match (c.total_usage, p.total_usage, c.system_cpu_usage, p.system_cpu_usage, c.online_cpus) {
        (Some(total), Some(pretotal), Some(system), Some(presystem), Some(online)) => {
            if system > presystem {
                let cpu = if total >= pretotal {
                    total - pretotal
                } else {
                    0
                };
                Some((cpu, system - presystem, online))
            } else {
                None
            }
        },
        _ => None,
    }
}

/// The memory figures a stats sample reports, where it reports them.
#[derive(Clone, Copy, Debug, PartialEq, Eq)]
pub struct MemoryStats {
    pub usage: Option<u64>,
    pub limit: Option<u64>,
}

/// `(usage, limit)` in bytes, each 0 where the sample does not say.
pub fn memory_usage(memory_stats: Option<MemoryStats>) -> (r: (u64, u64))
    ensures
        memory_stats is None ==> r == (0u64, 0u64),
        memory_stats matches Some(m) ==> r.0 == (match m.usage {
            Some(u) => u,
            None => 0u64,
        }) && r.1 == (match m.limit {
            Some(l) => l,
            None => 0u64,
        }),
{
    match memory_stats {
        None => (0, 0),
        Some(m) => {
            let usage = match m.usage {
                Some(u) => u,
                None => 0,
            };
            let limit = match m.limit {
                Some(l) => l,
                None => 0,
            };
            (usage, limit)
        },
    }
}

} // verus!
