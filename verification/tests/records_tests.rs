use std::io::{Cursor, Write};

use base64::Engine;

use berth::db::{
    any_pending, check_deletable, deployment_from_row, permissions_from_rows, size_from_row,
    size_to_row, status_from_row, status_to_row, token_grants_access, DeploymentRow,
    DeploymentState, PermissionLevel as DbLevel, PermissionRow, UserName,
};
use berth::error::AppError;
use berth::lifecycle::{
    check_app_name_free, first_activate_step, mark_interrupted_deployments, next_activate_step,
    pending_git_deployment_row, sweep_plan, ActivateNext,
    ActivateStep, SweepAction, clone_result, content_root, interrupted_deployments, next_git_step, previous_container_to_stop,
    run_container_to_start, CloneOutcome, ContentRoot, GitDeployNext, GitDeployStep,
};
use berth::models::{
    AppPermission, BuildConfig, Deployment, DeploymentStatus, GitDeployMode, PermissionLevel, RunConfig,
    RunImage,
};
use berth::secrets::{decrypt_with_key, encrypt_with_key, secrets_key_from};
use berth::user_admin::{
    bootstrap_admin_plan, check_new_user, check_password_change, check_user_delete,
    check_user_update, Bootstrap,
};
use berth::auth::CurrentUser;
use berth::accounts::AccountRole;
use berth::views::{
    api_token_view, container_status, is_active, token_name, usize_from_u64, ApiTokenRow,
    ContainerStatus,
};
use berth::zip_extract::{check_archive, extracted_file, unpack_plan, ZipEntryInfo};

#[test]
fn stored_tags_round_trip() {
    for level in [DbLevel::Read, DbLevel::Write] {
        assert_eq!(DbLevel::parse(level.as_str()), Ok(level));
    }
    for state in [
        DeploymentState::Pending,
        DeploymentState::Ready,
        DeploymentState::Failed,
    ] {
        assert_eq!(DeploymentState::parse(state.as_str()), Ok(state));
    }
    assert_eq!(
        DbLevel::parse("admin"),
        Err("invalid permission level: admin".to_string())
    );
    assert_eq!(
        DeploymentState::parse("done"),
        Err("invalid deployment state: done".to_string())
    );
}

#[test]
fn statuses_written_read_back() {
    for status in [
        DeploymentStatus::Pending,
        DeploymentStatus::Ready,
        DeploymentStatus::Failed {
            error: "boom".to_string(),
        },
    ] {
        let expected = match &status {
            DeploymentStatus::Pending => DeploymentStatus::Pending,
            DeploymentStatus::Ready => DeploymentStatus::Ready,
            DeploymentStatus::Failed { error } => DeploymentStatus::Failed {
                error: error.clone(),
            },
        };
        let (state, error) = status_to_row(status);
        assert_eq!(status_from_row(state, error), expected);
    }
    assert_eq!(
        status_from_row(DeploymentState::Failed, None),
        DeploymentStatus::Failed {
            error: String::new()
        }
    );
}

fn row(status: &str) -> DeploymentRow {
    DeploymentRow {
        id: "dep1".to_string(),
        created_at: 1_700_000_000,
        original_filename: Some("site.zip".to_string()),
        upload_size_bytes: -5,
        git_info: None,
        build_info: None,
        container_name: Some("oxde-a-dep1".to_string()),
        status: status.to_string(),
        failure_error: Some("oops".to_string()),
    }
}

#[test]
fn deployment_rows_become_deployments() {
    let d = deployment_from_row(row("failed"), "blog").expect("valid row");
    assert_eq!(d.id, "dep1");
    assert_eq!(d.app, "blog");
    assert_eq!(d.upload_size_bytes, 0);
    assert_eq!(d.container_name.as_deref(), Some("oxde-a-dep1"));
    assert_eq!(
        d.status,
        DeploymentStatus::Failed {
            error: "oops".to_string()
        }
    );
    assert_eq!(
        deployment_from_row(row("weird"), "blog"),
        Err(AppError::CorruptData(
            "invalid deployment state: weird".to_string()
        ))
    );
}

#[test]
fn deployment_rows_with_unrepresentable_times_are_timestamp_errors() {
    let mut late = row("ready");
    late.created_at = 253_402_207_201;
    assert!(matches!(
        deployment_from_row(late, "blog"),
        Err(AppError::Timestamp(_))
    ));
    let mut early = row("ready");
    early.created_at = -377_705_023_202;
    assert!(matches!(
        deployment_from_row(early, "blog"),
        Err(AppError::Timestamp(_))
    ));
    let mut last = row("ready");
    last.created_at = 253_402_207_200;
    assert_eq!(
        deployment_from_row(last, "blog").map(|d| d.created_at),
        Ok(253_402_207_200)
    );
    assert_eq!(
        deployment_from_row(row("pending"), "blog").map(|d| d.created_at),
        Ok(1_700_000_000)
    );
}

#[test]
fn sizes_saturate_both_ways() {
    assert_eq!(size_to_row(5), 5);
    assert_eq!(size_to_row(u64::MAX), i64::MAX);
    assert_eq!(size_from_row(7), 7);
    assert_eq!(size_from_row(-1), 0);
}

#[test]
fn grants_skip_missing_users_and_reject_bad_levels() {
    let users = vec![
        UserName { id: 1, username: "alice".to_string() },
        UserName { id: 2, username: "bob".to_string() },
    ];
    let rows = vec![
        PermissionRow { user_id: 2, level: "write".to_string() },
        PermissionRow { user_id: 9, level: "garbage".to_string() },
        PermissionRow { user_id: 1, level: "read".to_string() },
    ];
    assert_eq!(
        permissions_from_rows(&rows, &users),
        Ok(vec![
            AppPermission { username: "bob".to_string(), level: PermissionLevel::Write },
            AppPermission { username: "alice".to_string(), level: PermissionLevel::Read },
        ])
    );
    let bad = vec![PermissionRow { user_id: 1, level: "owner".to_string() }];
    assert_eq!(
        permissions_from_rows(&bad, &users),
        Err(AppError::CorruptData("invalid permission level: owner".to_string()))
    );
}

#[test]
fn pending_and_active_deployments_are_guarded() {
    assert!(any_pending(&["ready".to_string(), "pending".to_string()]));
    assert!(!any_pending(&["ready".to_string(), "failed".to_string()]));
    assert_eq!(
        check_deletable(Some("d1"), "d1"),
        Err(AppError::DeleteActiveDeployment)
    );
    assert!(check_deletable(Some("d1"), "d2").is_ok());
    assert!(check_deletable(None, "d2").is_ok());
}

#[test]
fn tokens_need_to_be_live_and_match() {
    let hash = berth::accounts::hash_password("s3cret").expect("hash");
    assert!(token_grants_access(false, 200, 100, "s3cret", &hash));
    assert!(!token_grants_access(true, 200, 100, "s3cret", &hash));
    assert!(!token_grants_access(false, 100, 100, "s3cret", &hash));
    assert!(!token_grants_access(false, 200, 100, "other", &hash));
}

#[test]
fn round_trips() {
    let key = [7u8; 32];
    let stored = encrypt_with_key(&key, "hunter2").expect("encrypt");
    assert_ne!(stored, "hunter2");
    assert_eq!(decrypt_with_key(&key, &stored), Ok("hunter2".to_string()));
    let again = encrypt_with_key(&key, "hunter2").expect("encrypt");
    assert_ne!(stored, again, "each value gets a fresh nonce");
}

#[test]
fn detects_tampering() {
    let key = [9u8; 32];
    let stored = encrypt_with_key(&key, "hunter2").expect("encrypt");
    let mut raw = base64::engine::general_purpose::STANDARD
        .decode(&stored)
        .expect("valid base64");
    let last = raw.len() - 1;
    raw[last] ^= 0x01;
    let tampered = base64::engine::general_purpose::STANDARD.encode(raw);
    assert_eq!(
        decrypt_with_key(&key, &tampered),
        Err(AppError::CorruptData(
            "secret value could not be decrypted".to_string()
        ))
    );
    assert_eq!(
        decrypt_with_key(&[1u8; 32], &stored),
        Err(AppError::CorruptData(
            "secret value could not be decrypted".to_string()
        ))
    );
    assert_eq!(
        decrypt_with_key(&key, "!!!"),
        Err(AppError::CorruptData(
            "secret value could not be decoded".to_string()
        ))
    );
    assert_eq!(
        decrypt_with_key(&key, "AAAA"),
        Err(AppError::CorruptData(
            "secret value could not be decoded".to_string()
        ))
    );
}

#[test]
fn git_deployments_run_phase_by_phase() {
    assert_eq!(
        next_git_step(true, GitDeployStep::Clone, true),
        GitDeployNext::Run(GitDeployStep::Build)
    );
    assert_eq!(
        next_git_step(false, GitDeployStep::Clone, true),
        GitDeployNext::Run(GitDeployStep::Finish)
    );
    assert_eq!(
        next_git_step(false, GitDeployStep::Activate, true),
        GitDeployNext::Run(GitDeployStep::MarkReady)
    );
    assert_eq!(
        next_git_step(false, GitDeployStep::MarkReady, true),
        GitDeployNext::Done
    );
    assert_eq!(
        next_git_step(true, GitDeployStep::Build, false),
        GitDeployNext::Abort { remove_staging: true }
    );
    assert_eq!(
        next_git_step(true, GitDeployStep::Activate, false),
        GitDeployNext::Abort { remove_staging: false }
    );
    assert_eq!(
        clone_result(CloneOutcome::TimedOut),
        Err(AppError::Git("timed out waiting for git fetch".to_string()))
    );
    assert_eq!(
        clone_result(CloneOutcome::TaskFailed("panicked".to_string())),
        Err(AppError::Io("panicked".to_string()))
    );
    assert_eq!(
        clone_result(CloneOutcome::Cloned {
            checkout_dir: "/s/_checkout".to_string(),
            commit_sha: "abc".to_string()
        }),
        Ok(("/s/_checkout".to_string(), "abc".to_string()))
    );
    assert_eq!(
        content_root(&GitDeployMode::Build(BuildConfig {
            image: RunImage::Node24,
            command: "make".to_string(),
            output_dir: "out".to_string(),
        })),
        ContentRoot::Subdir(Some("out".to_string()))
    );
}

#[test]
fn activation_stops_only_a_different_previous_container() {
    assert_eq!(
        previous_container_to_stop(Some("old"), "new", Some("c-old".to_string())),
        Some("c-old".to_string())
    );
    assert_eq!(
        previous_container_to_stop(Some("new"), "new", Some("c".to_string())),
        None
    );
    assert_eq!(previous_container_to_stop(None, "new", Some("c".to_string())), None);
    assert_eq!(
        run_container_to_start(None),
        Err(AppError::ContainerStartFailed(
            "run-mode deployment has no container_name".to_string()
        ))
    );
}

fn deployment(id: &str, status: DeploymentStatus, container: Option<&str>) -> Deployment {
    Deployment {
        id: id.to_string(),
        app: "blog".to_string(),
        created_at: 0,
        original_filename: None,
        upload_size_bytes: 0,
        git: None,
        build_info: None,
        container_name: container.map(str::to_string),
        status,
    }
}

#[test]
fn restarts_fail_pending_deployments() {
    let found = interrupted_deployments(&[
        deployment("a", DeploymentStatus::Ready, Some("ca")),
        deployment("b", DeploymentStatus::Pending, Some("cb")),
        deployment("c", DeploymentStatus::Pending, None),
    ]);
    assert_eq!(found.len(), 2);
    assert_eq!(found[0].deployment_id, "b");
    assert_eq!(found[0].install_container.as_deref(), Some("cb-install"));
    assert_eq!(found[1].deployment_id, "c");
    assert_eq!(found[1].install_container, None);
}

fn current(role: AccountRole) -> CurrentUser {
    CurrentUser {
        id: 1,
        username: "root".to_string(),
        role,
    }
}

#[test]
fn user_management_rules() {
    assert_eq!(
        check_new_user(&current(AccountRole::Admin), "bob", "hunter22", "member"),
        Ok(AccountRole::Member)
    );
    assert!(matches!(
        check_new_user(&current(AccountRole::Member), "bob", "hunter22", "member"),
        Err(AppError::Forbidden(_))
    ));
    assert_eq!(
        check_new_user(&current(AccountRole::Admin), "bob", "hunter22", "boss"),
        Err(AppError::InvalidRole("boss".to_string()))
    );
    assert_eq!(
        check_user_update(&current(AccountRole::Admin), "root", Some("member"), None),
        Err(AppError::Forbidden("you can't change your own role".to_string()))
    );
    let update = check_user_update(&current(AccountRole::Admin), "bob", Some("admin"), Some("longpass"))
        .expect("allowed");
    assert_eq!(update.role, Some(AccountRole::Admin));
    assert!(update.reset_password);
    assert!(update.revoke_sessions);
    let none = check_user_update(&current(AccountRole::Admin), "bob", None, None).expect("allowed");
    assert!(!none.revoke_sessions);
    assert_eq!(
        check_user_delete(&current(AccountRole::Admin), "root"),
        Err(AppError::Forbidden("you can't delete your own account".to_string()))
    );
    assert!(check_user_delete(&current(AccountRole::Admin), "bob").is_ok());
    assert_eq!(
        check_password_change(false, "whatever"),
        Err(AppError::InvalidCredentials)
    );
    assert!(check_password_change(true, "longenough").is_ok());
    assert_eq!(bootstrap_admin_plan(true, "", ""), Ok(Bootstrap::Skip));
    assert_eq!(
        bootstrap_admin_plan(false, "admin", "secret"),
        Ok(Bootstrap::CreateAdmin)
    );
    assert_eq!(
        bootstrap_admin_plan(false, "A", "secret"),
        Err("invalid admin_username in config: A".to_string())
    );
    assert_eq!(
        bootstrap_admin_plan(false, "admin", "123"),
        Err("invalid admin_password in config".to_string())
    );
}

#[test]
fn views_and_small_rules() {
    let view = api_token_view(ApiTokenRow {
        id: 3,
        user_id: 1,
        name: "ci".to_string(),
        token_id: "tid".to_string(),
        expires_at: 10,
        revoked: false,
        created_at: 1,
        updated_at: 2,
    });
    assert_eq!(view.id, 3);
    assert_eq!(view.name, "ci");
    assert_eq!(token_name("  ci  "), Ok("ci"));
    assert_eq!(token_name("   "), Err(AppError::InvalidName("   ".to_string())));
    assert_eq!(container_status(Ok(true)), ContainerStatus::Running);
    assert_eq!(container_status(Ok(false)), ContainerStatus::Stopped);
    assert_eq!(container_status(Err(())), ContainerStatus::Unknown);
    assert!(is_active(Some("d"), "d"));
    assert!(!is_active(None, "d"));
    assert_eq!(usize_from_u64(5), 5);
}

fn build_zip(entries: &[(&str, &[u8])]) -> Vec<u8> {
    let mut writer = zip::ZipWriter::new(Cursor::new(Vec::new()));
    let options = zip::write::SimpleFileOptions::default();
    for (name, contents) in entries {
        writer.start_file(*name, options).expect("start_file");
        writer.write_all(contents).expect("write contents");
    }
    writer.finish().expect("finish zip").into_inner()
}

#[test]
fn benign_zip_extracts_successfully() {
    let archive = build_zip(&[("index.html", b"<h1>hi</h1>"), ("css/a.css", b"x")]);
    let (total, plan) = unpack_plan(&archive, "/dest", 10_000).expect("accepted");
    assert_eq!(total, 12);
    assert_eq!(plan.len(), 2);
    assert_eq!(plan[0].path, "/dest/index.html");
    assert_eq!(plan[1].path, "/dest/css/a.css");
    assert!(!plan[0].is_dir);
    assert_eq!(extracted_file(&archive, &plan[0]), Ok(b"<h1>hi</h1>".to_vec()));
    assert_eq!(extracted_file(&archive, &plan[1]), Ok(b"x".to_vec()));
}

#[test]
fn zip_slip_entry_is_rejected() {
    let archive = build_zip(&[("ok.txt", b"fine"), ("../../evil.txt", b"pwned")]);
    assert_eq!(
        unpack_plan(&archive, "/dest", 10_000),
        Err(AppError::Zip(
            "invalid Zip archive: entry path escapes the destination directory".to_string()
        ))
    );
}

#[test]
fn unreadable_archive_is_a_zip_error() {
    assert!(matches!(
        unpack_plan(b"not a zip at all", "/dest", 10_000),
        Err(AppError::Zip(_))
    ));
}

#[test]
fn oversized_archive_is_rejected() {
    let big = vec![b'a'; 20_000];
    let archive = build_zip(&[("big.txt", &big)]);
    assert_eq!(
        unpack_plan(&archive, "/dest", 10_000),
        Err(AppError::Zip(
            "invalid Zip archive: uncompressed size exceeds the configured limit".to_string()
        ))
    );
    assert_eq!(unpack_plan(&archive, "/dest", 20_000).map(|(t, _)| t), Ok(20_000));
    let huge = vec![
        ZipEntryInfo { enclosed_name: Some("a".to_string()), size: u64::MAX, is_dir: false },
        ZipEntryInfo { enclosed_name: Some("b".to_string()), size: 5, is_dir: false },
    ];
    assert!(check_archive(&huge, u64::MAX).is_ok());
    assert!(check_archive(&huge, u64::MAX - 1).is_err());
}

#[test]
fn stored_secrets_are_longer_than_the_plaintext() {
    let key = [7u8; 32];
    let stored = encrypt_with_key(&key, "hunter2").expect("encrypt");
    // 12-byte nonce + 7 bytes + 16-byte tag = 35 bytes: 48 base64 characters.
    assert_eq!(stored.len(), 48);
    assert_eq!(encrypt_with_key(&key, "").expect("encrypt").len(), 40);
}

#[test]
fn secrets_keys_come_from_the_file_or_fresh() {
    let (key, fresh) = secrets_key_from("/d/secrets.key", Some(vec![3u8; 32])).expect("32 bytes");
    assert_eq!(key, [3u8; 32]);
    assert!(!fresh);
    assert_eq!(
        secrets_key_from("/d/secrets.key", Some(vec![3u8; 31])),
        Err("secrets key file at /d/secrets.key has the wrong length".to_string())
    );
    let (a, fresh_a) = secrets_key_from("/d/secrets.key", None).expect("fresh");
    let (b, _) = secrets_key_from("/d/secrets.key", None).expect("fresh");
    assert!(fresh_a);
    assert_ne!(a, b);
}

#[test]
fn a_bad_redeploy_keeps_the_old_deployment_serving() {
    assert_eq!(first_activate_step(true), ActivateStep::StartNew);
    assert_eq!(first_activate_step(false), ActivateStep::SetActive);
    assert_eq!(next_activate_step(true, ActivateStep::StartNew, false), ActivateNext::Fail);
    assert_eq!(
        next_activate_step(true, ActivateStep::StartNew, true),
        ActivateNext::Run(ActivateStep::StopPrevious)
    );
    assert_eq!(
        next_activate_step(false, ActivateStep::StartNew, true),
        ActivateNext::Run(ActivateStep::SetActive)
    );
    // Failing to stop the old container is reported, not fatal.
    assert_eq!(
        next_activate_step(true, ActivateStep::StopPrevious, false),
        ActivateNext::Run(ActivateStep::SetActive)
    );
    assert_eq!(next_activate_step(true, ActivateStep::SetActive, true), ActivateNext::Done);
    assert_eq!(next_activate_step(true, ActivateStep::SetActive, false), ActivateNext::Fail);
}

#[test]
fn startup_sweep_removes_only_directories_without_rows() {
    let known = "0190a5b2-7c1e-7d3a-9f00-000000000001".to_string();
    let names = vec![
        known.clone(),
        "0190A5B2-7C1E-7D3A-9F00-000000000001".to_string(),
        "0190a5b2-7c1e-7d3a-9f00-000000000002".to_string(),
        "not-an-id".to_string(),
    ];
    assert_eq!(
        sweep_plan(&names, &[known]),
        vec![SweepAction::Keep, SweepAction::Keep, SweepAction::Remove, SweepAction::Skip]
    );
    assert_eq!(sweep_plan(&[], &[]), Vec::<SweepAction>::new());
}

#[test]
fn duplicate_app_names_are_refused() {
    assert_eq!(
        check_app_name_free("blog", true),
        Err(AppError::AppAlreadyExists("blog".to_string()))
    );
    assert_eq!(check_app_name_free("blog", false), Ok(()));
}

#[test]
fn new_user_checks_name_every_refusal() {
    assert_eq!(
        check_new_user(&current(AccountRole::Member), "bob", "hunter22", "member"),
        Err(AppError::Forbidden("admin access required".to_string()))
    );
    assert_eq!(
        check_new_user(&current(AccountRole::Admin), "bob", "abc", "member"),
        Err(AppError::InvalidPassword("password must be at least 5 characters".to_string()))
    );
    assert_eq!(
        check_new_user(&current(AccountRole::Admin), "bob", "hunter22", "Admin"),
        Err(AppError::InvalidRole("Admin".to_string()))
    );
    assert_eq!(
        check_user_delete(&current(AccountRole::Member), "bob"),
        Err(AppError::Forbidden("admin access required".to_string()))
    );
    assert_eq!(
        check_password_change(true, "abc"),
        Err(AppError::InvalidPassword("password must be at least 5 characters".to_string()))
    );
}

#[test]
fn pending_git_deployments_are_recorded_pending() {
    let run = GitDeployMode::Run(RunConfig {
        image: RunImage::Node24,
        install_command: None,
        start_command: "node .".to_string(),
        container_port: 3000,
    });
    let row = pending_git_deployment_row(&run, "blog", "d1", 1_700_000_000);
    assert_eq!(row.status, "pending");
    assert_eq!(row.container_name.as_deref(), Some("oxde-blog-d1"));
    assert_eq!(row.upload_size_bytes, 0);
    let d = deployment_from_row(row, "blog").expect("valid row");
    assert_eq!(d.status, DeploymentStatus::Pending);
    let statics = GitDeployMode::Static { publish_dir: None };
    assert_eq!(pending_git_deployment_row(&statics, "blog", "d2", 0).container_name, None);
    assert!(any_pending(&["ready".to_string(), "pending".to_string()]));
}

#[test]
fn interrupted_deployments_are_marked_failed_once() {
    let before = vec![
        deployment("a", DeploymentStatus::Pending, Some("oxde-blog-a")),
        deployment("b", DeploymentStatus::Ready, None),
    ];
    let once = mark_interrupted_deployments(before);
    assert_eq!(
        once[0].status,
        DeploymentStatus::Failed { error: "interrupted by server restart".to_string() }
    );
    assert_eq!(once[0].container_name.as_deref(), Some("oxde-blog-a"));
    assert_eq!(once[1].status, DeploymentStatus::Ready);
    let failed = DeploymentStatus::Failed { error: "interrupted by server restart".to_string() };
    let again = mark_interrupted_deployments(vec![deployment("a", failed, Some("oxde-blog-a"))]);
    assert_eq!(again[0].status, once[0].status);
}
