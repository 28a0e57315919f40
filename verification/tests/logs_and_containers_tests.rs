use berth::agent_protocol::{
    app_error_from_agent, agent_error, call_result, command_result_err, command_result_ok,
    command_result_to_app_result, dir_list_result, dir_list_to_app_result, dir_op_result,
    fs_agent_error, start_error_to_command_result,
    stop_target_name, upload_progress, wrong_payload, AgentError, AgentErrorKind, CallWait,
    CommandOutcome, CommandResult,
};
use berth::containers::{
    bind_mount, build_container_name, command_container_spec, command_outcome, container_name,
    env_strings, install_container_name, memory_usage, run_container_spec, start_step,
    cpu_deltas, next_start_action, stop_after_wait, CommandWait, CpuStats, MemoryStats, StartAction,
    StartNext, RunContainerConfig, StartError, StartStep,
};
use berth::deployment_logs::{
    after_rotation, after_write, backlog_files, resolve_terminal_phase, rotation_due, LogKind,
    LogRegistry, PumpFile, RUN_LOG_ROTATE_BYTES,
};
use berth::error::AppError;
use berth::models::{EnvVar, EnvVarValue};

#[test]
fn log_kinds_name_their_files() {
    assert_eq!(LogKind::Clone.file_name(), "clone.log");
    assert_eq!(LogKind::Install.file_name(), "install.log");
    assert_eq!(LogKind::Build.file_name(), "build.log");
    assert_eq!(LogKind::Run.file_name(), "run.log");
    assert_eq!(backlog_files(LogKind::Run), vec!["run.log.1", "run.log"]);
    assert_eq!(backlog_files(LogKind::Build), vec!["build.log"]);
}

#[test]
fn resolve_terminal_phase_prefers_furthest_progressed() {
    assert_eq!(
        resolve_terminal_phase(&[LogKind::Clone, LogKind::Install]),
        Some(LogKind::Install)
    );
    assert_eq!(
        resolve_terminal_phase(&[LogKind::Run, LogKind::Clone]),
        Some(LogKind::Run)
    );
}

#[test]
fn resolve_terminal_phase_none_when_nothing_on_disk() {
    assert_eq!(resolve_terminal_phase(&[]), None);
}

#[test]
fn second_pump_for_same_deployment_is_a_no_op() {
    let mut registry: LogRegistry<u32> = LogRegistry::new();
    assert!(registry.try_register("dep1", LogKind::Install, 1));
    assert!(!registry.try_register("dep1", LogKind::Build, 2));
    let (kind, handle) = registry.active("dep1").expect("first pump still active");
    assert_eq!(kind, LogKind::Install);
    assert_eq!(*handle, 1);
    assert!(registry.active("dep2").is_none());
}

#[test]
fn a_deregistered_pump_can_be_replaced() {
    let mut registry: LogRegistry<&str> = LogRegistry::new();
    assert!(registry.try_register("a", LogKind::Clone, "x"));
    assert!(registry.try_register("b", LogKind::Run, "y"));
    registry.deregister("a");
    assert!(registry.active("a").is_none());
    assert_eq!(registry.active("b").map(|(k, h)| (k, *h)), Some((LogKind::Run, "y")));
    assert!(registry.try_register("a", LogKind::Build, "z"));
    assert_eq!(registry.active("a").map(|(k, _)| k), Some(LogKind::Build));
}

#[test]
fn run_log_rotates_at_cap() {
    let full = PumpFile { open: true, bytes_written: RUN_LOG_ROTATE_BYTES };
    assert!(rotation_due(LogKind::Run, full));
    assert!(!rotation_due(LogKind::Install, full));
    assert!(!rotation_due(
        LogKind::Run,
        PumpFile { open: true, bytes_written: RUN_LOG_ROTATE_BYTES - 1 }
    ));
    let reopened = after_rotation(true);
    assert_eq!(reopened, PumpFile { open: true, bytes_written: 0 });
    let written = after_write(reopened, 14, true);
    assert_eq!(written.bytes_written, 14);
    assert_eq!(after_write(written, 5, false).bytes_written, 14);
    let closed = after_rotation(false);
    assert_eq!(after_write(closed, 5, true), closed);
}

#[test]
fn container_names_are_deterministic() {
    assert_eq!(container_name("app1", "dep1"), "oxde-app1-dep1");
    assert_eq!(install_container_name("oxde-app1-dep1"), "oxde-app1-dep1-install");
    assert_eq!(build_container_name("oxde-app1-dep1"), "oxde-app1-dep1-build");
    assert_eq!(bind_mount("/data/files"), "/data/files:/app");
}

fn vars() -> Vec<EnvVar> {
    vec![
        EnvVar {
            key: "A".to_string(),
            value: EnvVarValue::Plain("1".to_string()),
        },
        EnvVar {
            key: "B".to_string(),
            value: EnvVarValue::Secret("two".to_string()),
        },
    ]
}

#[test]
fn env_strings_are_key_equals_value() {
    assert_eq!(env_strings(&vars()), vec!["A=1".to_string(), "B=two".to_string()]);
}

#[test]
fn run_containers_get_the_run_network_and_caps() {
    let config = RunContainerConfig {
        image: "docker.io/library/node:24".to_string(),
        install_command: None,
        start_command: "npm start".to_string(),
        env_vars: vars(),
        install_timeout_secs: 300,
    };
    let spec = run_container_spec("/srv/files", &config);
    assert_eq!(spec.cmd, vec!["sh", "-c", "npm start"]);
    assert_eq!(spec.working_dir, "/app");
    assert_eq!(spec.env, vec!["A=1".to_string(), "B=two".to_string()]);
    assert_eq!(spec.binds, vec!["/srv/files:/app".to_string()]);
    assert!(spec.restart_unless_stopped);
    assert_eq!(spec.network.as_deref(), Some("oxde-run"));
    assert_eq!(spec.memory_bytes, Some(512 * 1024 * 1024));
    assert_eq!(spec.nano_cpus, Some(1_000_000_000));
    let one_shot = command_container_spec("/srv/co", "img", "make", &[]);
    assert_eq!(one_shot.cmd, vec!["sh", "-c", "make"]);
    assert!(one_shot.network.is_none());
    assert!(!one_shot.restart_unless_stopped);
}

#[test]
fn starting_is_idempotent() {
    assert_eq!(start_step(true, true), StartStep::AlreadyRunning);
    assert_eq!(start_step(false, true), StartStep::StartExisting);
    assert_eq!(start_step(false, false), StartStep::CreateNew);
}

#[test]
fn command_outcomes_name_the_failure() {
    assert_eq!(command_outcome(CommandWait::Exited, 30), Ok(()));
    assert_eq!(
        command_outcome(
            CommandWait::ExitedWithError {
                code: 2,
                error: "boom".to_string()
            },
            30
        ),
        Err(StartError::CommandFailed("command exited 2: boom".to_string()))
    );
    assert_eq!(
        command_outcome(CommandWait::TimedOut, 300),
        Err(StartError::CommandFailed("command timed out after 300s".to_string()))
    );
    assert_eq!(
        command_outcome(CommandWait::WaitFailed("gone".to_string()), 1),
        Err(StartError::StartFailed("gone".to_string()))
    );
}

fn cpu(total: Option<u64>, system: Option<u64>, online: Option<u32>) -> Option<CpuStats> {
    Some(CpuStats { total_usage: total, system_cpu_usage: system, online_cpus: online })
}

#[test]
fn cpu_deltas_between_samples() {
    assert_eq!(
        cpu_deltas(cpu(Some(300), Some(2_000), Some(4)), cpu(Some(100), Some(1_000), Some(2))),
        Some((200, 1_000, 4))
    );
    // The container's counter going backwards counts as no CPU time.
    assert_eq!(
        cpu_deltas(cpu(Some(50), Some(2_000), Some(4)), cpu(Some(100), Some(1_000), Some(4))),
        Some((0, 1_000, 4))
    );
    // No system time passed, or a figure missing: a 0% share.
    assert_eq!(
        cpu_deltas(cpu(Some(300), Some(1_000), Some(4)), cpu(Some(100), Some(1_000), Some(4))),
        None
    );
    assert_eq!(cpu_deltas(cpu(Some(300), Some(2_000), None), cpu(Some(100), Some(1_000), Some(4))), None);
    assert_eq!(cpu_deltas(None, cpu(Some(100), Some(1_000), Some(4))), None);
    assert_eq!(cpu_deltas(cpu(Some(300), Some(2_000), Some(4)), cpu(None, Some(1_000), Some(4))), None);
}

#[test]
fn memory_figures_default_to_zero() {
    assert_eq!(memory_usage(None), (0, 0));
    assert_eq!(
        memory_usage(Some(MemoryStats { usage: Some(5), limit: None })),
        (5, 0)
    );
    assert_eq!(
        memory_usage(Some(MemoryStats { usage: Some(5), limit: Some(9) })),
        (5, 9)
    );
}

#[test]
fn start_errors_reach_the_hub_as_matching_errors() {
    let cases = [
        (
            StartError::Unavailable("u".to_string()),
            AppError::ContainerUnavailable("u".to_string()),
        ),
        (
            StartError::StartFailed("s".to_string()),
            AppError::ContainerStartFailed("s".to_string()),
        ),
        (
            StartError::CommandFailed("c".to_string()),
            AppError::CommandFailed("c".to_string()),
        ),
    ];
    for (start_error, expected) in cases {
        let reported = start_error_to_command_result(start_error);
        assert_eq!(command_result_to_app_result(reported), Err(expected));
    }
    assert_eq!(command_result_to_app_result(command_result_ok()), Ok(()));
    assert_eq!(
        command_result_to_app_result(CommandResult { result: None }),
        Err(AppError::AgentError(
            "agent sent an empty command result".to_string()
        ))
    );
}

#[test]
fn agent_errors_map_by_kind() {
    assert_eq!(
        app_error_from_agent(agent_error(AgentErrorKind::Unspecified, "x".to_string())),
        AppError::ContainerUnavailable("x".to_string())
    );
    assert_eq!(
        fs_agent_error(AgentError {
            kind: AgentErrorKind::StartFailed,
            message: "m".to_string()
        }),
        AppError::AgentOperationFailed("m".to_string())
    );
    assert_eq!(
        fs_agent_error(AgentError {
            kind: AgentErrorKind::CommandFailed,
            message: "m".to_string()
        }),
        AppError::CommandFailed("m".to_string())
    );
    assert_eq!(
        dir_op_result(Err("disk full".to_string())),
        command_result_err(AgentErrorKind::Unavailable, "disk full".to_string())
    );
    assert_eq!(
        dir_op_result(Ok(())).result,
        Some(CommandOutcome::Done)
    );
    assert_eq!(
        wrong_payload("GetHostStats"),
        AppError::AgentError(
            "agent replied to GetHostStats with the wrong payload type".to_string()
        )
    );
    assert_eq!(call_result(CallWait::Replied(3)), Ok(3));
    assert_eq!(call_result::<u8>(CallWait::SessionClosed), Err(AppError::AgentUnavailable));
    assert_eq!(call_result::<u8>(CallWait::TimedOut), Err(AppError::AgentTimeout));
}

#[test]
fn stop_requests_can_target_the_install_container() {
    assert_eq!(stop_target_name("c1".to_string(), true), "c1-install");
    assert_eq!(stop_target_name("c1".to_string(), false), "c1");
}

#[test]
fn upload_streams_end_at_the_final_chunk() {
    assert_eq!(upload_progress(Some(false)), Ok(false));
    assert_eq!(upload_progress(Some(true)), Ok(true));
    assert_eq!(
        upload_progress(None),
        Err("hub closed the upload stream before sending a final chunk".to_string())
    );
}

#[test]
fn only_a_timed_out_command_is_stopped_at_once() {
    assert!(stop_after_wait(&CommandWait::TimedOut));
    assert!(!stop_after_wait(&CommandWait::Exited));
    assert!(!stop_after_wait(&CommandWait::ExitedWithError { code: 1, error: "e".to_string() }));
    assert!(!stop_after_wait(&CommandWait::WaitFailed("gone".to_string())));
}

#[test]
fn a_failed_install_ends_the_start_before_the_container_is_created() {
    assert_eq!(
        next_start_action(true, StartAction::PullImage, true),
        StartNext::Run(StartAction::RunInstall)
    );
    assert_eq!(next_start_action(true, StartAction::RunInstall, false), StartNext::Fail);
    assert_eq!(
        next_start_action(true, StartAction::RunInstall, true),
        StartNext::Run(StartAction::CreateContainer)
    );
    assert_eq!(
        next_start_action(false, StartAction::PullImage, true),
        StartNext::Run(StartAction::CreateContainer)
    );
    assert_eq!(
        next_start_action(false, StartAction::CreateContainer, true),
        StartNext::Run(StartAction::StartContainer)
    );
    assert_eq!(next_start_action(false, StartAction::StartContainer, true), StartNext::Done);
}

#[test]
fn deployment_dir_listings_cross_the_link() {
    let ids = vec!["d1".to_string(), "d2".to_string()];
    assert_eq!(dir_list_to_app_result(dir_list_result(Ok(ids.clone()))), Ok(ids));
    assert_eq!(
        dir_list_to_app_result(dir_list_result(Err("disk gone".to_string()))),
        Err(AppError::AgentOperationFailed("disk gone".to_string()))
    );
    assert_eq!(
        dir_list_to_app_result(berth::agent_protocol::DirListResult { result: None }),
        Err(AppError::AgentError("agent sent an empty ListDeploymentDirs result".to_string()))
    );
}
