use berth::accounts::{
    hash_password, user_role, validate_password, validate_username, verify_password, AccountRole,
};
use berth::api_tokens::{format_token, generate, parse_bearer_value, validate_expiry, verify_secret};
use berth::auth::{
    after_failed_login, bearer_credentials, bearer_token, check_login_lockout,
    clear_session_cookie_header, cookie_value, generate_session_token, session_cookie_header,
    session_expired, verify_same_origin, CurrentUser, LoginAttempts, LoginThrottle, SessionStore,
    LOGIN_MAX_FAILURES, SESSION_COOKIE, SESSION_MAX_AGE_SECS,
};
use berth::authz::check_app_permission;
use berth::error::AppError;
use berth::git_fetch::IpAddress;
use berth::models::{App, AppPermission, AppSource, PermissionLevel};

fn test_ip(label: u8) -> IpAddress {
    IpAddress::V4([203, 0, 113, label])
}

const NOW: i64 = 1_700_000_000;

#[test]
fn login_lockout_allows_attempts_under_the_threshold() {
    let mut throttle = LoginThrottle::new();
    let ip = test_ip(1);
    for _ in 0..LOGIN_MAX_FAILURES - 1 {
        throttle.record_failure(ip, NOW);
    }
    assert!(throttle.check(ip, NOW).is_ok());
}

#[test]
fn login_lockout_rejects_once_threshold_is_reached() {
    let mut throttle = LoginThrottle::new();
    let ip = test_ip(2);
    for _ in 0..LOGIN_MAX_FAILURES {
        throttle.record_failure(ip, NOW);
    }
    assert!(matches!(
        throttle.check(ip, NOW),
        Err(AppError::TooManyLoginAttempts(_))
    ));
}

#[test]
fn login_lockout_is_per_ip() {
    let mut throttle = LoginThrottle::new();
    let attacker = test_ip(3);
    let admin = test_ip(4);
    for _ in 0..LOGIN_MAX_FAILURES {
        throttle.record_failure(attacker, NOW);
    }
    assert!(throttle.check(attacker, NOW).is_err());
    assert!(throttle.check(admin, NOW).is_ok());
}

#[test]
fn clearing_login_attempts_lifts_the_lockout() {
    let mut throttle = LoginThrottle::new();
    let ip = test_ip(5);
    for _ in 0..LOGIN_MAX_FAILURES {
        throttle.record_failure(ip, NOW);
    }
    assert!(throttle.check(ip, NOW).is_err());
    throttle.clear(ip);
    assert!(throttle.check(ip, NOW).is_ok());
}

#[test]
fn lockout_reports_minutes_until_the_window_rolls_over() {
    let locked = Some(LoginAttempts {
        count: 10,
        window_start: NOW,
    });
    assert_eq!(
        check_login_lockout(locked, NOW),
        Err(AppError::TooManyLoginAttempts(15))
    );
    assert_eq!(
        check_login_lockout(locked, NOW + 61),
        Err(AppError::TooManyLoginAttempts(14))
    );
    assert!(check_login_lockout(locked, NOW + 901).is_ok());
    assert!(check_login_lockout(None, NOW).is_ok());
}

#[test]
fn a_failure_after_the_window_starts_a_new_one() {
    let first = after_failed_login(None, NOW);
    assert_eq!(first, LoginAttempts { count: 1, window_start: NOW });
    let second = after_failed_login(Some(first), NOW + 10);
    assert_eq!(second, LoginAttempts { count: 2, window_start: NOW });
    let fresh = after_failed_login(Some(second), NOW + 901);
    assert_eq!(fresh, LoginAttempts { count: 1, window_start: NOW + 901 });
    let saturated = after_failed_login(
        Some(LoginAttempts { count: u32::MAX, window_start: NOW }),
        NOW,
    );
    assert_eq!(saturated.count, u32::MAX);
}

#[test]
fn get_requests_bypass_the_check() {
    assert!(verify_same_origin("GET", None, None, None).is_ok());
}

#[test]
fn bearer_token_requests_bypass_the_check() {
    assert!(verify_same_origin("POST", Some("Bearer sometoken"), None, None).is_ok());
}

#[test]
fn requests_without_a_session_cookie_bypass_the_check() {
    assert!(verify_same_origin("POST", None, None, None).is_ok());
}

#[test]
fn session_cookie_with_same_origin_sec_fetch_site_is_accepted() {
    let result = verify_same_origin(
        "POST",
        None,
        Some("oxde_session=sess-token"),
        Some("same-origin"),
    );
    assert!(result.is_ok());
}

#[test]
fn session_cookie_with_same_site_sec_fetch_site_is_rejected() {
    let result = verify_same_origin(
        "POST",
        None,
        Some("oxde_session=sess-token"),
        Some("same-site"),
    );
    assert!(matches!(result, Err(AppError::Forbidden(_))));
}

#[test]
fn session_cookie_without_sec_fetch_site_header_is_rejected() {
    let result = verify_same_origin("POST", None, Some("oxde_session=sess-token"), None);
    assert_eq!(
        result,
        Err(AppError::Forbidden(
            "cross-origin request rejected".to_string()
        ))
    );
}

#[test]
fn cookies_are_found_by_name_among_pairs() {
    assert_eq!(
        cookie_value(Some("a=1; oxde_session=tok ; b=2"), SESSION_COOKIE),
        Some("tok".to_string())
    );
    assert_eq!(cookie_value(Some("a=1;b=2"), "c"), None);
    assert_eq!(cookie_value(Some("flag; a=x=y"), "a"), Some("x=y".to_string()));
    assert_eq!(cookie_value(Some("a=1; a=2"), "a"), Some("1".to_string()));
    assert_eq!(cookie_value(None, "a"), None);
}

#[test]
fn bearer_tokens_follow_the_bearer_prefix() {
    assert_eq!(bearer_token(Some("Bearer abc")), Some("abc".to_string()));
    assert_eq!(bearer_token(Some("Basic abc")), None);
    assert_eq!(bearer_token(None), None);
    assert_eq!(bearer_credentials(None), Ok(None));
    assert_eq!(
        bearer_credentials(Some("Bearer oxde_id1.secret")),
        Ok(Some(("id1".to_string(), "secret".to_string())))
    );
    assert_eq!(
        bearer_credentials(Some("Bearer garbage")),
        Err(AppError::Unauthenticated)
    );
}

#[test]
fn session_cookies_carry_the_token_and_max_age() {
    let (name, value) = session_cookie_header("tok", SESSION_MAX_AGE_SECS);
    assert_eq!(name, "set-cookie");
    assert_eq!(
        value,
        "oxde_session=tok; Path=/; HttpOnly; Secure; SameSite=Lax; Max-Age=2592000"
    );
    let (_, cleared) = clear_session_cookie_header();
    assert_eq!(
        cleared,
        "oxde_session=; Path=/; HttpOnly; Secure; SameSite=Lax; Max-Age=0"
    );
}

#[test]
fn sessions_expire_after_thirty_days() {
    assert!(!session_expired(NOW, NOW + SESSION_MAX_AGE_SECS));
    assert!(session_expired(NOW, NOW + SESSION_MAX_AGE_SECS + 1));
    let mut store = SessionStore::new();
    let token = store.create("alice", NOW);
    assert_eq!(store.resolve(Some(token.clone()), NOW + 5), Ok("alice".to_string()));
    assert_eq!(
        store.resolve(Some(token.clone()), NOW + SESSION_MAX_AGE_SECS + 1),
        Err(AppError::Unauthenticated)
    );
    // The expired session was evicted.
    assert_eq!(store.resolve(Some(token), NOW), Err(AppError::Unauthenticated));
    assert_eq!(store.resolve(None, NOW), Err(AppError::Unauthenticated));
}

#[test]
fn revoking_sessions_spares_only_the_kept_token() {
    let mut store = SessionStore::new();
    let a1 = store.create("alice", NOW);
    let a2 = store.create("alice", NOW);
    let b = store.create("bob", NOW);
    store.revoke_other_sessions_for("alice", &a1);
    assert!(store.resolve(Some(a1.clone()), NOW).is_ok());
    assert!(store.resolve(Some(a2), NOW).is_err());
    store.revoke_sessions_for("alice");
    assert!(store.resolve(Some(a1), NOW).is_err());
    assert!(store.resolve(Some(b.clone()), NOW).is_ok());
    store.remove(&b);
    assert!(store.resolve(Some(b), NOW).is_err());
}

#[test]
fn session_tokens_are_url_safe_and_fresh() {
    let a = generate_session_token();
    let b = generate_session_token();
    assert_eq!(a.len(), 43);
    assert_ne!(a, b);
    assert!(a
        .chars()
        .all(|c| c.is_ascii_alphanumeric() || c == '-' || c == '_'));
}

#[test]
fn formatted_tokens_parse_back() {
    let token = format_token("abc", "s3cr.et");
    assert_eq!(token, "oxde_abc.s3cr.et");
    assert_eq!(parse_bearer_value(&token), Some(("abc", "s3cr.et")));
    assert_eq!(parse_bearer_value("nope_abc.def"), None);
    assert_eq!(parse_bearer_value("oxde_nodot"), None);
}

#[test]
fn generated_tokens_verify_their_secret() {
    let (token_id, secret, hash) = generate().expect("generate");
    assert_eq!(token_id.len(), 22);
    assert_eq!(secret.len(), 43);
    assert!(verify_secret(&secret, &hash));
    assert!(!verify_secret("wrong", &hash));
    assert!(!verify_secret(&secret, "not a hash"));
    let formatted = format_token(&token_id, &secret);
    assert_eq!(
        parse_bearer_value(&formatted),
        Some((token_id.as_str(), secret.as_str()))
    );
}

#[test]
fn token_expiry_must_be_in_the_allowed_window() {
    assert!(validate_expiry(NOW, NOW + 86_400, 30).is_ok());
    assert!(validate_expiry(NOW, NOW + 30 * 86_400, 30).is_ok());
    assert_eq!(
        validate_expiry(NOW, NOW + 30 * 86_400 + 1, 30),
        Err(AppError::InvalidTokenExpiry(NOW + 30 * 86_400 + 1))
    );
    assert_eq!(
        validate_expiry(NOW, NOW, 30),
        Err(AppError::InvalidTokenExpiry(NOW))
    );
}

#[test]
fn passwords_hash_and_verify() {
    let hash = hash_password("hunter22").expect("hash");
    assert!(verify_password("hunter22", &hash));
    assert!(!verify_password("hunter23", &hash));
    assert!(validate_password("12345").is_ok());
    assert!(matches!(
        validate_password("1234"),
        Err(AppError::InvalidPassword(_))
    ));
}

#[test]
fn usernames_and_roles() {
    assert!(validate_username("alice_1").is_ok());
    assert_eq!(
        validate_username("Al"),
        Err(AppError::InvalidUsername("Al".to_string()))
    );
    assert!(validate_username("1abc").is_err());
    assert_eq!(user_role("admin"), Ok(AccountRole::Admin));
    assert_eq!(user_role("member"), Ok(AccountRole::Member));
    assert_eq!(
        user_role("root"),
        Err(AppError::InvalidRole("root".to_string()))
    );
    assert_eq!(AccountRole::Admin.as_str(), "admin");
    assert_eq!(AccountRole::Member.as_str(), "member");
}

fn user(role: AccountRole) -> CurrentUser {
    CurrentUser {
        id: 1,
        username: "alice".to_string(),
        role,
    }
}

#[test]
fn only_admins_pass_require_admin() {
    assert!(user(AccountRole::Admin).require_admin().is_ok());
    assert_eq!(
        user(AccountRole::Member).require_admin(),
        Err(AppError::Forbidden("admin access required".to_string()))
    );
}

#[test]
fn app_permission_checks_grants_for_members() {
    let app = App {
        id: "1".to_string(),
        name: "blog".to_string(),
        created_at: 0,
        updated_at: 0,
        host_id: 1,
        source: AppSource::Upload,
        env_vars: Vec::new(),
        permissions: vec![AppPermission {
            username: "alice".to_string(),
            level: PermissionLevel::Read,
        }],
    };
    assert!(check_app_permission(&user(AccountRole::Admin), &app, PermissionLevel::Write).is_ok());
    assert!(check_app_permission(&user(AccountRole::Member), &app, PermissionLevel::Read).is_ok());
    assert_eq!(
        check_app_permission(&user(AccountRole::Member), &app, PermissionLevel::Write),
        Err(AppError::Forbidden(
            "you don't have write access to this app".to_string()
        ))
    );
}

#[test]
fn failures_spread_over_the_window_lock_out_together() {
    let mut throttle = LoginThrottle::new();
    let ip = test_ip(9);
    for i in 0..LOGIN_MAX_FAILURES as i64 {
        throttle.record_failure(ip, NOW + i * 60);
    }
    assert_eq!(
        throttle.check(ip, NOW + 600),
        Err(AppError::TooManyLoginAttempts(5))
    );
    assert!(throttle.check(ip, NOW + 901).is_ok());
}

#[test]
fn a_stale_record_starts_a_fresh_window() {
    let mut throttle = LoginThrottle::new();
    let ip = test_ip(10);
    for _ in 0..LOGIN_MAX_FAILURES {
        throttle.record_failure(ip, NOW);
    }
    assert!(throttle.check(ip, NOW).is_err());
    // The old window is over: nine new failures don't lock the IP out.
    for i in 0..(LOGIN_MAX_FAILURES as i64 - 1) {
        throttle.record_failure(ip, NOW + 1_000 + i);
    }
    assert!(throttle.check(ip, NOW + 1_010).is_ok());
    throttle.record_failure(ip, NOW + 1_010);
    assert!(throttle.check(ip, NOW + 1_010).is_err());
}
