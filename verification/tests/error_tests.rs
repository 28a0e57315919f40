use berth::error::AppError;
use berth::models::ModelError;

#[test]
fn errors_answer_with_their_status() {
    assert_eq!(AppError::AppNotFound("a".to_string()).status(), 404);
    assert_eq!(AppError::DeleteActiveDeployment.status(), 409);
    assert_eq!(AppError::InvalidName("x".to_string()).status(), 400);
    assert_eq!(AppError::Unauthenticated.status(), 401);
    assert_eq!(AppError::Forbidden("no".to_string()).status(), 403);
    assert_eq!(AppError::TooLarge.status(), 413);
    assert_eq!(AppError::Git("x".to_string()).status(), 502);
    assert_eq!(AppError::Db("x".to_string()).status(), 500);
    assert_eq!(AppError::TooManyLoginAttempts(3).status(), 429);
    assert!(AppError::Io("x".to_string()).is_server_error());
    assert!(!AppError::InvalidCredentials.is_server_error());
}

#[test]
fn errors_carry_their_message() {
    assert_eq!(
        AppError::AppNotFound("blog".to_string()).message(),
        "app not found: blog"
    );
    assert_eq!(
        AppError::NotGitSourced("blog".to_string()).message(),
        "app blog is not git-sourced"
    );
    assert_eq!(AppError::InvalidCredentials.message(), "invalid credentials");
    assert_eq!(
        AppError::TooManyLoginAttempts(15).message(),
        "too many failed login attempts, try again in 15 minutes"
    );
    assert_eq!(AppError::Forbidden("nope".to_string()).message(), "nope");
}

#[test]
fn model_errors_keep_their_variant() {
    assert_eq!(
        AppError::from_model(ModelError::InvalidName("n".to_string())),
        AppError::InvalidName("n".to_string())
    );
    assert_eq!(
        AppError::from_model(ModelError::InvalidEnvVar("k".to_string())),
        AppError::InvalidEnvVar("k".to_string())
    );
}

#[test]
fn whitespace_matches_std_on_every_char() {
    for c in (0u32..=0x10FFFF).filter_map(char::from_u32) {
        assert_eq!(
            berth::text::is_blank_str(&c.to_string()),
            c.is_whitespace(),
            "U+{:04X}",
            c as u32
        );
    }
}
