use berth::agent_session::{
    agent_authorization, agent_credentials, already_connected, delay_after_attempt,
    next_reconnect_delay,
    pin_to_persist, unknown_agent_token, AgentRegistry, ChunkRoute, InFlight, SessionRefusal,
};
use berth::config::{
    default_api_token_max_expiry_days, default_build_timeout_secs, default_data_dir,
    default_git_fetch_timeout_secs, default_hub_addr, default_http_port, default_https_port,
    default_install_timeout_secs, default_max_uncompressed_bytes, default_max_upload_bytes,
    listen_port, Config, TlsConfig,
};
use berth::dashboard_assets::{
    asset_path, cache_control, choose_asset, etag, is_hashed_asset, not_modified, AssetChoice,
};
use berth::layout::{
    deleted_deployment_staging, deployment_dir, deployment_files_dir, deployments_dir, path_join, pin_path, tmp_dir,
    upload_staging_dir, upload_zip_path, Paths,
};
use berth::relay::{
    body_chunk_payload, is_upgrade_request, relay_path, status_from, target_uri, wrap_chunk,
};
use berth::tls::{check_fingerprint, expected_fingerprint, hex_encode, hex_sha256};

#[test]
fn is_upgrade_request_needs_both_headers() {
    assert!(!is_upgrade_request(false, None));
    assert!(!is_upgrade_request(true, None), "missing Connection header");
    assert!(
        !is_upgrade_request(true, Some("keep-alive")),
        "Connection header without the upgrade token"
    );
    assert!(is_upgrade_request(true, Some("Keep-Alive, Upgrade")));
    assert!(!is_upgrade_request(false, Some("upgrade")));
}

#[test]
fn relayed_statuses_must_be_valid() {
    assert_eq!(status_from(200), 200);
    assert_eq!(status_from(999), 999);
    assert_eq!(status_from(99), 502);
    assert_eq!(status_from(1000), 502);
    assert_eq!(status_from(70_000), 502);
}

#[test]
fn relayed_requests_go_to_the_container() {
    assert_eq!(
        target_uri("10.88.0.5", 3000, Some("/a?b=1")),
        "http://10.88.0.5:3000/a?b=1"
    );
    assert_eq!(target_uri("10.88.0.5", 80, None), "http://10.88.0.5:80/");
    assert_eq!(relay_path(None), "/");
    assert_eq!(relay_path(Some("/x")), "/x");
    let chunk = body_chunk_payload(vec![1, 2], true);
    assert_eq!(chunk.data, vec![1, 2]);
    assert!(chunk.is_final);
    let upload = wrap_chunk("d1".to_string(), 10, vec![3], false);
    assert_eq!(upload.deployment_id, "d1");
    assert_eq!(upload.max_uncompressed_bytes, 10);
    assert!(!upload.chunk.is_final);
}

#[test]
fn paths_are_joined_like_std_paths() {
    for (base, part) in [
        ("/data", "x"),
        ("/data/", "x"),
        ("", "x"),
        ("/data", "/abs"),
        ("rel", "y/z"),
        ("/data", ""),
    ] {
        let expected = std::path::Path::new(base).join(part);
        assert_eq!(path_join(base, part), expected.to_str().unwrap(), "{base} + {part}");
    }
}

#[test]
fn the_data_layout_is_flat_by_deployment() {
    assert_eq!(deployments_dir("/d"), "/d/deployments");
    assert_eq!(deployment_dir("/d", "id1"), "/d/deployments/id1");
    assert_eq!(deployment_files_dir("/d", "id1"), "/d/deployments/id1/files");
    assert_eq!(tmp_dir("/d"), "/d/tmp");
    assert_eq!(upload_staging_dir("/d", "id1"), "/d/tmp/upload-id1");
    assert_eq!(deleted_deployment_staging("/d", "id1"), "/d/tmp/deleted-deployment-id1");
    assert_eq!(upload_zip_path("/d", "id1"), "/d/tmp/upload-id1.zip");
    assert_eq!(pin_path("/d"), "/d/hub-tls-fingerprint.txt");
    let paths = Paths::new("/d/agent-tls");
    assert_eq!(paths.cert, "/d/agent-tls/cert.pem");
    assert_eq!(paths.key, "/d/agent-tls/key.pem");
    assert_eq!(paths.fingerprint, "/d/agent-tls/fingerprint.txt");
}

#[test]
fn config_defaults() {
    assert_eq!(default_max_upload_bytes(), 200 * 1024 * 1024);
    assert_eq!(default_max_uncompressed_bytes(), 1024 * 1024 * 1024);
    assert_eq!(default_git_fetch_timeout_secs(), 60);
    assert_eq!(default_install_timeout_secs(), 300);
    assert_eq!(default_build_timeout_secs(), 300);
    assert_eq!(default_api_token_max_expiry_days(), 30);
    assert_eq!(default_http_port(), 80);
    assert_eq!(default_https_port(), 443);
    assert_eq!(default_data_dir(), "agent-data");
    assert_eq!(default_hub_addr(), "127.0.0.1:50051");
    assert_eq!(TlsConfig::default(), TlsConfig::Off);
    assert_eq!(listen_port(&TlsConfig::Off, 8080, 8443), 8080);
    let manual = TlsConfig::Manual {
        cert_path: "/c".to_string(),
        key_path: "/k".to_string(),
    };
    assert_eq!(listen_port(&manual, 8080, 8443), 8443);
}

#[test]
fn config_limits_carry_over() {
    let config = Config {
        data_dir: "/d".to_string(),
        admin_username: "admin".to_string(),
        admin_password: "secret".to_string(),
        base_domain: "example.com".to_string(),
        max_upload_bytes: 1,
        max_uncompressed_bytes: 2,
        git_fetch_timeout_secs: 3,
        install_timeout_secs: 4,
        build_timeout_secs: 5,
        api_token_max_expiry_days: 6,
        enable_mcp: true,
        tls: TlsConfig::Off,
        http_port: 80,
        https_port: 443,
    };
    let limits = config.limits();
    assert_eq!(limits.max_upload_bytes, 1);
    assert_eq!(limits.base_domain, "example.com");
    assert_eq!(limits.api_token_max_expiry_days, 6);
    assert!(limits.enable_mcp);
}

#[test]
fn expected_fingerprint_is_none_when_nothing_is_pinned() {
    assert_eq!(expected_fingerprint(None, None), None);
}

#[test]
fn expected_fingerprint_returns_the_persisted_pin_when_present() {
    assert_eq!(
        expected_fingerprint(None, Some("abc123".to_string())),
        Some("abc123".to_string())
    );
    assert_eq!(
        expected_fingerprint(None, Some("abc123\n".to_string())),
        Some("abc123".to_string())
    );
}

#[test]
fn expected_fingerprint_prefers_the_configured_override_over_a_persisted_pin() {
    let result = expected_fingerprint(
        Some("FromConfig".to_string()),
        Some("persisted".to_string()),
    );
    assert_eq!(result, Some("fromconfig".to_string()));
}

#[test]
fn fingerprints_are_sha256_hex() {
    assert_eq!(
        hex_sha256(b"abc"),
        "ba7816bf8f01cfea414140de5dae2223b00361a396177a9cb410ff61f20015ad"
    );
    let mut bytes = [0u8; 32];
    bytes[0] = 0xab;
    bytes[31] = 0x01;
    let hex = hex_encode(bytes);
    assert_eq!(hex.len(), 64);
    assert!(hex.starts_with("ab00"));
    assert!(hex.ends_with("0001"));
    assert!(check_fingerprint(None, "x").is_ok());
    assert!(check_fingerprint(Some("x"), "x").is_ok());
    assert_eq!(
        check_fingerprint(Some("a"), "b"),
        Err("hub certificate fingerprint mismatch (expected a, got b)".to_string())
    );
}

#[test]
fn dashboard_paths_and_caching() {
    assert_eq!(asset_path("/dashboard/assets/app.js"), "assets/app.js");
    assert_eq!(asset_path("/dashboard"), "");
    assert_eq!(asset_path("/other"), "");
    assert!(is_hashed_asset("assets/app.js"));
    assert!(!is_hashed_asset("index.html"));
    assert_eq!(choose_asset(false, true, true), AssetChoice::Requested);
    assert_eq!(choose_asset(false, false, true), AssetChoice::Index);
    assert_eq!(choose_asset(true, false, true), AssetChoice::NotFound);
    assert_eq!(cache_control(true), "public, max-age=31536000, immutable");
    assert_eq!(cache_control(false), "no-cache");
    let tag = etag([0u8; 32]);
    assert_eq!(tag.len(), 66);
    assert!(tag.starts_with('"') && tag.ends_with('"'));
    assert!(not_modified(Some(&tag), &tag));
    assert!(!not_modified(Some("\"other\""), &tag));
    assert!(!not_modified(None, &tag));
}

#[test]
fn agents_authenticate_with_a_bearer_token() {
    assert_eq!(
        agent_credentials(None),
        Err(SessionRefusal::Unauthenticated(
            "missing authorization metadata".to_string()
        ))
    );
    assert_eq!(
        agent_credentials(Some("Token x")),
        Err(SessionRefusal::Unauthenticated(
            "malformed authorization metadata".to_string()
        ))
    );
    assert_eq!(
        agent_credentials(Some("Bearer nope")),
        Err(SessionRefusal::Unauthenticated("malformed agent token".to_string()))
    );
    assert_eq!(
        agent_credentials(Some("Bearer oxde_h1.s")),
        Ok(("h1".to_string(), "s".to_string()))
    );
    assert_eq!(agent_authorization("oxde_h1.s"), "Bearer oxde_h1.s");
    assert_eq!(
        unknown_agent_token(),
        SessionRefusal::Unauthenticated("unknown or revoked agent token".to_string())
    );
}

#[test]
fn one_session_per_host() {
    let mut registry: AgentRegistry<&str> = AgentRegistry::new();
    assert!(registry.connect(7, "first"));
    assert!(!registry.connect(7, "second"));
    assert_eq!(registry.for_host(7), Some(&"first"));
    assert!(registry.is_connected(7));
    registry.disconnect(7);
    assert!(!registry.is_connected(7));
    assert!(registry.connect(7, "third"));
    assert_eq!(
        already_connected(),
        SessionRefusal::AlreadyExists("this host already has an active session".to_string())
    );
}

#[test]
fn chunks_start_then_forward() {
    let mut in_flight: InFlight<u8> = InFlight::new();
    assert_eq!(in_flight.route(1, 10), ChunkRoute::Start);
    assert_eq!(in_flight.route(1, 11), ChunkRoute::Forward);
    assert_eq!(in_flight.channel(1), Some(&10));
    in_flight.finish(1);
    assert_eq!(in_flight.channel(1), None);
    assert_eq!(in_flight.route(1, 12), ChunkRoute::Start);
}

#[test]
fn reconnect_backoff_doubles_up_to_the_cap() {
    let mut delay = 1;
    let mut seen = Vec::new();
    for _ in 0..7 {
        delay = next_reconnect_delay(delay);
        seen.push(delay);
    }
    assert_eq!(seen, vec![2, 4, 8, 16, 30, 30, 30]);
    assert_eq!(pin_to_persist(false, Some("fp".to_string())), Some("fp".to_string()));
    assert_eq!(pin_to_persist(true, Some("fp".to_string())), None);
}

#[test]
fn reconnect_delay_resets_once_a_session_opens() {
    assert_eq!(delay_after_attempt(true, 16), 1);
    assert_eq!(delay_after_attempt(false, 16), 16);
    assert_eq!(next_reconnect_delay(delay_after_attempt(true, 30)), 2);
}
