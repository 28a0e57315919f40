use berth::accounts::AccountRole;
use berth::auth::CurrentUser;
use berth::authz::{app_creator, enforce_app_access, required_level, visible_apps};
use berth::deployment_logs::{log_phase, logs_plan, LogKind};
use berth::error::AppError;
use berth::forms::{app_source_from_form, parse_u16, run_config_from_form, CreateAppForm};
use berth::host_routing::{resolve_serve_target, ServeTarget};
use berth::lifecycle::{check_git_deployable, container_to_reconcile, pending_container_name};
use berth::models::{
    App, AppPermission, AppSource, Deployment, DeploymentStatus, GitDeployMode, GitSource,
    PermissionLevel, RunConfig, RunImage,
};
use berth::relay::{body_parts, readable_headers, request_body_chunks, switches_protocols, Chunk};
use berth::views::{upload_field_is_file, upload_total};

fn form() -> CreateAppForm {
    CreateAppForm {
        name: "blog".to_string(),
        source: "git".to_string(),
        repo_url: "https://example.com/r.git".to_string(),
        branch: String::new(),
        publish_dir: String::new(),
        run_enabled: "on".to_string(),
        run_image: "python314".to_string(),
        install_command: "  pip install -r requirements.txt ".to_string(),
        start_command: " python app.py ".to_string(),
        container_port: " 8000 ".to_string(),
    }
}

#[test]
fn ports_parse_like_std() {
    for s in ["0", "1", "+80", "65535", "65536", "", "+", "-1", "8o", "007", "99999999999"] {
        assert_eq!(parse_u16(s), s.parse::<u16>().ok(), "{s:?}");
    }
}

#[test]
fn run_configs_come_from_the_form() {
    let run = run_config_from_form(&form()).expect("valid").expect("run mode");
    assert_eq!(run.image, RunImage::Python314);
    assert_eq!(run.container_port, 8000);
    assert_eq!(run.start_command, "python app.py");
    assert_eq!(run.install_command.as_deref(), Some("pip install -r requirements.txt"));
    let mut off = form();
    off.run_enabled = String::new();
    assert_eq!(run_config_from_form(&off), Ok(None));
    let mut bad_port = form();
    bad_port.container_port = "0".to_string();
    assert_eq!(
        run_config_from_form(&bad_port),
        Err(AppError::InvalidRunConfig("container port must be 1-65535".to_string()))
    );
    let mut no_start = form();
    no_start.start_command = " ".to_string();
    assert_eq!(
        run_config_from_form(&no_start),
        Err(AppError::InvalidRunConfig(
            "start command is required in run mode".to_string()
        ))
    );
}

#[test]
fn sources_come_from_the_form() {
    let source = app_source_from_form(&form()).expect("valid");
    let AppSource::Git(git) = source else {
        panic!("expected a git source");
    };
    assert_eq!(git.branch, "main");
    let GitDeployMode::Run(run) = git.mode else {
        panic!("expected run mode");
    };
    assert_eq!(run.image, RunImage::Python314);
    assert_eq!(run.container_port, 8000);
    assert_eq!(run.start_command, "python app.py");
    assert_eq!(run.install_command.as_deref(), Some("pip install -r requirements.txt"));
    let mut bad_port = form();
    bad_port.container_port = "0".to_string();
    assert_eq!(
        app_source_from_form(&bad_port),
        Err(AppError::InvalidRunConfig("container port must be 1-65535".to_string()))
    );
    let mut no_start = form();
    no_start.start_command = "  ".to_string();
    assert_eq!(
        app_source_from_form(&no_start),
        Err(AppError::InvalidRunConfig("start command is required in run mode".to_string()))
    );
    let mut upload = form();
    upload.source = "upload".to_string();
    assert_eq!(app_source_from_form(&upload), Ok(AppSource::Upload));
    let mut static_site = form();
    static_site.run_enabled = String::new();
    static_site.publish_dir = "dist".to_string();
    static_site.branch = "dev".to_string();
    let AppSource::Git(git) = app_source_from_form(&static_site).expect("valid") else {
        panic!("expected a git source");
    };
    assert_eq!(git.branch, "dev");
    assert_eq!(
        git.mode,
        GitDeployMode::Static {
            publish_dir: Some("dist".to_string())
        }
    );
}

fn run_app() -> App {
    App {
        id: "a1".to_string(),
        name: "blog".to_string(),
        created_at: 0,
        updated_at: 0,
        host_id: 1,
        source: AppSource::Git(GitSource {
            repo_url: "https://x".to_string(),
            branch: "main".to_string(),
            mode: GitDeployMode::Run(RunConfig {
                image: RunImage::Node24,
                install_command: None,
                start_command: "node .".to_string(),
                container_port: 3000,
            }),
        }),
        env_vars: Vec::new(),
        permissions: vec![AppPermission {
            username: "mem".to_string(),
            level: PermissionLevel::Read,
        }],
    }
}

fn deployment(container: Option<&str>) -> Deployment {
    Deployment {
        id: "d1".to_string(),
        app: "blog".to_string(),
        created_at: 0,
        original_filename: None,
        upload_size_bytes: 0,
        git: None,
        build_info: None,
        container_name: container.map(str::to_string),
        status: DeploymentStatus::Ready,
    }
}

#[test]
fn serve_targets_follow_the_active_deployment() {
    let app = run_app();
    let with_container = deployment(Some("c1"));
    assert_eq!(
        resolve_serve_target("blog", Some(&with_container), Some(&app), "/f".to_string(), false),
        ServeTarget::Run {
            container_name: "c1".to_string(),
            container_port: 3000
        }
    );
    let static_one = deployment(None);
    assert_eq!(
        resolve_serve_target("blog", Some(&static_one), Some(&app), "/f".to_string(), true),
        ServeTarget::Static("/f".to_string())
    );
    assert_eq!(
        resolve_serve_target("blog", Some(&static_one), Some(&app), "/f".to_string(), false),
        ServeTarget::NotFound
    );
    assert_eq!(
        resolve_serve_target("Not A Slug", Some(&static_one), Some(&app), "/f".to_string(), true),
        ServeTarget::NotFound
    );
    assert_eq!(
        resolve_serve_target("blog", None, Some(&app), "/f".to_string(), true),
        ServeTarget::NotFound
    );
}

fn member() -> CurrentUser {
    CurrentUser {
        id: 2,
        username: "mem".to_string(),
        role: AccountRole::Member,
    }
}

#[test]
fn listings_and_access_follow_grants() {
    let admin = CurrentUser {
        id: 1,
        username: "root".to_string(),
        role: AccountRole::Admin,
    };
    let mut other = run_app();
    other.name = "other".to_string();
    other.permissions.clear();
    assert_eq!(visible_apps(&admin, vec![run_app(), other]).len(), 2);
    let mut other = run_app();
    other.name = "other".to_string();
    other.permissions.clear();
    let seen = visible_apps(&member(), vec![other, run_app()]);
    assert_eq!(seen.len(), 1);
    assert_eq!(seen[0].name, "blog");
    assert_eq!(required_level("GET"), PermissionLevel::Read);
    assert_eq!(required_level("HEAD"), PermissionLevel::Read);
    assert_eq!(required_level("DELETE"), PermissionLevel::Write);
    assert!(enforce_app_access(&member(), &run_app(), "GET").is_ok());
    assert!(matches!(
        enforce_app_access(&member(), &run_app(), "POST"),
        Err(AppError::Forbidden(_))
    ));
    assert_eq!(app_creator(&member()), Some("mem"));
    assert_eq!(app_creator(&admin), None);
}

#[test]
fn log_requests_pick_a_phase() {
    assert_eq!(log_phase(Some(LogKind::Build), &[LogKind::Run]), Ok(LogKind::Build));
    assert_eq!(log_phase(None, &[LogKind::Clone]), Ok(LogKind::Clone));
    assert_eq!(
        log_phase(None, &[]),
        Err("no logs recorded for this deployment yet".to_string())
    );
    let plan = logs_plan(None, Some(LogKind::Install), &[], true, "d1").expect("plan");
    assert_eq!(plan.kind, LogKind::Install);
    assert!(plan.live);
    assert_eq!(plan.content_type, "text/event-stream");
    let explicit = logs_plan(Some(LogKind::Clone), Some(LogKind::Install), &[], true, "d1")
        .expect("plan");
    assert!(!explicit.live);
    assert_eq!(
        logs_plan(None, None, &[], false, "d1"),
        Err(AppError::NoContainer("d1".to_string()))
    );
}

#[test]
fn uploads_are_capped() {
    assert_eq!(upload_total(0, 10, 10), Ok(10));
    assert_eq!(upload_total(5, 6, 10), Err(AppError::TooLarge));
    assert_eq!(upload_total(10, u64::MAX, u64::MAX), Err(AppError::TooLarge));
    assert_eq!(upload_total(11, 0, 10), Err(AppError::TooLarge));
    assert!(upload_field_is_file(Some("file")));
    assert!(!upload_field_is_file(Some("other")));
    assert!(!upload_field_is_file(None));
}

#[test]
fn relayed_bodies_end_at_the_final_chunk() {
    let chunks = vec![
        Chunk { data: b"hello ".to_vec(), is_final: false },
        Chunk { data: b"world".to_vec(), is_final: false },
        Chunk { data: b"!".to_vec(), is_final: true },
        Chunk { data: b"ignored".to_vec(), is_final: false },
    ];
    let response: Vec<u8> = body_parts(&chunks, false).concat();
    assert_eq!(response, b"hello world");
    let request: Vec<u8> = body_parts(&chunks, true).concat();
    assert_eq!(request, b"hello world!");
}

#[test]
fn request_feeder_sends_head_then_chunks_then_a_final_marker() {
    let chunks = request_body_chunks(vec![b"a".to_vec(), b"b".to_vec()], false);
    assert_eq!(chunks.len(), 3);
    assert_eq!(chunks[0].data, b"a");
    assert!(!chunks[1].is_final);
    assert!(chunks[2].is_final && chunks[2].data.is_empty());
}

#[test]
fn request_feeder_sends_only_the_head_for_an_upgrade_request() {
    assert!(request_body_chunks(vec![b"a".to_vec()], true).is_empty());
    assert!(switches_protocols(true, 101));
    assert!(!switches_protocols(true, 200));
    assert!(!switches_protocols(false, 101));
}

#[test]
fn only_readable_headers_are_relayed() {
    let headers = readable_headers(vec![
        ("a".to_string(), Some("1".to_string())),
        ("b".to_string(), None),
        ("c".to_string(), Some("3".to_string())),
    ]);
    assert_eq!(headers.len(), 2);
    assert_eq!(headers[1].name, "c");
    assert_eq!(headers[1].value, "3");
}

#[test]
fn git_deployments_start_only_when_allowed() {
    let run_mode = GitDeployMode::Run(RunConfig {
        image: RunImage::Node24,
        install_command: None,
        start_command: "x".to_string(),
        container_port: 1,
    });
    assert_eq!(
        pending_container_name(&run_mode, "blog", "d9"),
        Some("oxde-blog-d9".to_string())
    );
    assert_eq!(
        pending_container_name(&GitDeployMode::Static { publish_dir: None }, "blog", "d9"),
        None
    );
    assert_eq!(
        check_git_deployable("blog", &AppSource::Upload, false),
        Err(AppError::NotGitSourced("blog".to_string()))
    );
    assert_eq!(
        check_git_deployable("blog", &run_app().source, true),
        Err(AppError::DeploymentInProgress("blog".to_string()))
    );
    assert!(check_git_deployable("blog", &run_app().source, false).is_ok());
    assert_eq!(
        container_to_reconcile(&run_app(), Some(&deployment(Some("c1")))),
        Some("c1".to_string())
    );
    assert_eq!(container_to_reconcile(&run_app(), None), None);
}
