//! The rules user management is held to: who may create, change and delete
//! accounts, what new accounts and passwords must look like, and when a
//! change ends the user's sessions. An admin can never lock themselves
//! out.

use vstd::prelude::*;

use crate::accounts::{valid_username_spec, validate_password, validate_username, AccountRole};
use crate::auth::CurrentUser;
use crate::error::{AppError, AppResult};
use crate::text::same_text;

verus! {

/// Checks a request to create an account, in order: the caller is an
/// admin, the username and password are acceptable, and the role names a
/// role. Returns the role.
pub fn check_new_user(current_user: &CurrentUser, username: &str, password: &str, role: &str) -> (r:
    AppResult<AccountRole>)
    ensures
        current_user.role == AccountRole::Member ==> (r matches Err(AppError::Forbidden(m)) && m@
            == "admin access required"@),
        current_user.role == AccountRole::Admin && !valid_username_spec(username@) ==> (r matches Err(
            AppError::InvalidUsername(m),
        ) && m@ == username@),
        current_user.role == AccountRole::Admin && valid_username_spec(username@) && password.len()
            < 5 ==> (r matches Err(AppError::InvalidPassword(m)) && m@
            == "password must be at least 5 characters"@),
        current_user.role == AccountRole::Admin && valid_username_spec(username@) && password.len()
            >= 5 && role@ != "admin"@ && role@ != "member"@ ==> (r matches Err(AppError::InvalidRole(m))
            && m@ == role@),
        r matches Ok(role_parsed) ==> current_user.role == AccountRole::Admin && valid_username_spec(
            username@,
        ) && password.len() >= 5 && (role@ == "admin"@ ==> role_parsed == AccountRole::Admin) && (
        role@ == "member"@ ==> role_parsed == AccountRole::Member),
        current_user.role == AccountRole::Admin && valid_username_spec(username@) && password.len()
            >= 5 && (role@ == "admin"@ || role@ == "member"@) ==> r is Ok,
{
    current_user.require_admin()?;
    validate_username(username)?;
    validate_password(password)?;
    AccountRole::parse(role)
}

/// What an accepted account update changes.
#[derive(Debug, PartialEq, Eq)]
pub struct UserUpdate {
    /// The new role, when one was given.
    pub role: Option<AccountRole>,
    /// Whether the password is reset.
    pub reset_password: bool,
    /// Whether the user's sessions end: on any role or password change.
    pub revoke_sessions: bool,
}

/// Checks an admin's update of `username`'s role and/or password (no old
/// password needed - the "ask an admin" recovery path), once the caller is
/// known to be an admin and the user to exist: a given role must name a
/// role, and an admin can't change their own role away from admin - that
/// could leave no admin reachable; a given password must be acceptable.
pub fn check_user_update(
    current_user: &CurrentUser,
    username: &str,
    role: Option<&str>,
    password: Option<&str>,
) -> (r: AppResult<UserUpdate>)
    ensures
        r matches Ok(u) ==> {
            &&& u.reset_password == password is Some
            &&& u.revoke_sessions == (role is Some || password is Some)
            &&& (role is None ==> u.role is None)
            &&& (role is Some && role->0@ == "admin"@ ==> u.role == Some(AccountRole::Admin))
            &&& (role is Some && role->0@ == "member"@ ==> u.role == Some(AccountRole::Member))
            &&& (u.role is Some && username@ == current_user.username@ ==> u.role->0
                == AccountRole::Admin)
        },
        r is Ok <==> (match role {
            None => true,
            Some(t) => t@ == "admin"@ || (t@ == "member"@ && username@ != current_user.username@),
        }) && (match password {
            None => true,
            Some(p) => p.len() >= 5,
        }),
        role is Some && role->0@ != "admin"@ && role->0@ != "member"@ ==> (r matches Err(
            AppError::InvalidRole(m),
        ) && m@ == role->0@),
        role is Some && role->0@ == "member"@ && username@ == current_user.username@ ==> (r matches Err(
            AppError::Forbidden(m),
        ) && m@ == "you can't change your own role"@),
        password matches Some(p) && p.len() < 5 && (role is None || role->0@ == "admin"@ || (
        role->0@ == "member"@ && username@ != current_user.username@)) ==> (r matches Err(
            AppError::InvalidPassword(m),
        ) && m@ == "password must be at least 5 characters"@),
{
    let mut new_role: Option<AccountRole> = None;
    match role {
        Some(text) => {
            let parsed = AccountRole::parse(text)?;
            if same_text(username, current_user.username.as_str()) && parsed != AccountRole::Admin {
                return Err(AppError::Forbidden("you can't change your own role".to_owned()));
            }
            new_role = Some(parsed);
        },
        None => {},
    }
    match password {
        Some(p) => {
            validate_password(p)?;
        },
        None => {},
    }
    Ok(UserUpdate {
        role: new_role,
        reset_password: password.is_some(),
        revoke_sessions: role.is_some() || password.is_some(),
    })
}

/// Checks a request to delete `username`: only an admin may, and never
/// their own account - a self-lockout with no recovery short of editing
/// the config and restarting.
pub fn check_user_delete(current_user: &CurrentUser, username: &str) -> (r: AppResult<()>)
    ensures
        current_user.role == AccountRole::Member ==> (r matches Err(AppError::Forbidden(m)) && m@
            == "admin access required"@),
        current_user.role == AccountRole::Admin && username@ == current_user.username@ ==> (r matches Err(
            AppError::Forbidden(m),
        ) && m@ == "you can't delete your own account"@),
        r is Ok <==> current_user.role == AccountRole::Admin && username@ != current_user.username@,
{
    current_user.require_admin()?;
    if same_text(username, current_user.username.as_str()) {
        return Err(AppError::Forbidden("you can't delete your own account".to_owned()));
    }
    Ok(())
}

/// Checks a self-service password change: the current password must have
/// verified, and the new one must be acceptable.
pub fn check_password_change(current_verified: bool, new_password: &str) -> (r: AppResult<()>)
    ensures
        !current_verified ==> r == Err::<(), AppError>(AppError::InvalidCredentials),
        current_verified ==> (r is Ok <==> new_password.len() >= 5),
        current_verified && new_password.len() < 5 ==> (r matches Err(AppError::InvalidPassword(m))
            && m@ == "password must be at least 5 characters"@),
{
    if !current_verified {
        return Err(AppError::InvalidCredentials);
    }
    validate_password(new_password)
}

/// What bootstrapping the first admin comes to.
#[derive(Debug, PartialEq, Eq)]
pub enum Bootstrap {
    /// An admin exists: the configured credentials are ignored.
    Skip,
    /// Create the configured admin.
    CreateAdmin,
}

/// Re-evaluated on every startup: with no admin, one is created from the
/// configured credentials (which must be acceptable); once an admin
/// exists, they are ignored - so if every admin were deleted, the config
/// becomes the recovery path again on the next restart.
pub fn bootstrap_admin_plan(admin_exists: bool, admin_username: &str, admin_password: &str) -> (r:
    Result<Bootstrap, String>)
    ensures
        admin_exists ==> r == Ok::<Bootstrap, String>(Bootstrap::Skip),
        !admin_exists && !valid_username_spec(admin_username@) ==> (r matches Err(m) && m@
            == "invalid admin_username in config: "@ + admin_username@),
        !admin_exists && valid_username_spec(admin_username@) && admin_password.len() < 5 ==> (
        r matches Err(m) && m@ == "invalid admin_password in config"@),
        !admin_exists && valid_username_spec(admin_username@) && admin_password.len() >= 5 ==> r
            == Ok::<Bootstrap, String>(Bootstrap::CreateAdmin),
{
    if admin_exists {
        return Ok(Bootstrap::Skip);
    }
    match validate_username(admin_username) {
        Ok(()) => {},
        Err(_) => {
            let mut m = "invalid admin_username in config: ".to_owned();
            m.append(admin_username);
            return Err(m);
        },
    }
    match validate_password(admin_password) {
        Ok(()) => Ok(Bootstrap::CreateAdmin),
        Err(_) => Err("invalid admin_password in config".to_owned()),
    }
}

} // verus!
