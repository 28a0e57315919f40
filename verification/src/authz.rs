//! Per-app access control: admins reach every app, members only those
//! they hold a sufficient grant on.

use vstd::prelude::*;

use crate::accounts::AccountRole;
use crate::auth::CurrentUser;
use crate::error::{AppError, AppResult};
use crate::models::{grants_allow, App, PermissionLevel};

verus! {

/// The word a permission level is named by in messages.
pub open spec fn level_word(level: PermissionLevel) -> Seq<char> {
    match level {
        PermissionLevel::Read => "read"@,
        PermissionLevel::Write => "write"@,
    }
}

/// Whether `user` may act on `app` at level `required`.
pub open spec fn app_access_allowed(user: CurrentUser, app: App, required: PermissionLevel) -> bool {
    user.role == AccountRole::Admin || grants_allow(app.permissions@, user.username@, required)
}

/// Admins pass; a member passes when one of the app's grants names them
/// at a sufficient level; anyone else is forbidden, with the level named.
pub fn check_app_permission(user: &CurrentUser, app: &App, required: PermissionLevel) -> (r:
    AppResult<()>)
    ensures
        r is Ok <==> app_access_allowed(*user, *app, required),
        r is Err ==> (r matches Err(AppError::Forbidden(m)) && m@ == "you don't have "@
            + level_word(required) + " access to this app"@),
{
    match user.role {
        AccountRole::Admin => Ok(()),
        AccountRole::Member => {
            if app.has_permission(user.username.as_str(), required) {
                Ok(())
            } else {
                let word = match required {
                    PermissionLevel::Read => "read",
                    PermissionLevel::Write => "write",
                };
                let mut m = "you don't have ".to_owned();
                m.append(word);
                m.append(" access to this app");
                Err(AppError::Forbidden(m))
            }
        },
    }
}



/// The access a request method needs.
pub open spec fn required_level_spec(method: Seq<char>) -> PermissionLevel {
    if method == "GET"@ || method == "HEAD"@ {
        PermissionLevel::Read
    } else {
        PermissionLevel::Write
    }
}

/// Reading (`GET`/`HEAD`) needs read access; anything else write access.
pub fn required_level(method: &str) -> (r: PermissionLevel)
    ensures
        (method@ == "GET"@ || method@ == "HEAD"@) ==> r == PermissionLevel::Read,
        !(method@ == "GET"@ || method@ == "HEAD"@) ==> r == PermissionLevel::Write,
        r == required_level_spec(method@),
{
    if crate::text::same_text(method, "GET") || crate::text::same_text(method, "HEAD") {
        PermissionLevel::Read
    } else {
        PermissionLevel::Write
    }
}

/// Gates every per-app route on the user's access at the level the
/// method needs.
pub fn enforce_app_access(user: &CurrentUser, app: &App, method: &str) -> (r: AppResult<()>)
    ensures
        (method@ == "GET"@ || method@ == "HEAD"@) ==> (r is Ok <==> app_access_allowed(
            *user,
            *app,
            PermissionLevel::Read,
        )),
        !(method@ == "GET"@ || method@ == "HEAD"@) ==> (r is Ok <==> app_access_allowed(
            *user,
            *app,
            PermissionLevel::Write,
        )),
        r is Err ==> (r matches Err(AppError::Forbidden(m)) && m@ == "you don't have "@
            + level_word(required_level_spec(method@)) + " access to this app"@),
{
    let required = required_level(method);
    check_app_permission(user, app, required)
}

/// Who is granted write access on an app they create: a member, who would
/// otherwise be locked out of it at once; an admin needs no grant.
pub fn app_creator(user: &CurrentUser) -> (r: Option<&str>)
    ensures
        user.role == AccountRole::Member ==> (r matches Some(u) && u@ == user.username@),
        user.role == AccountRole::Admin ==> r is None,
{
    match user.role {
        AccountRole::Member => Some(user.username.as_str()),
        AccountRole::Admin => None,
    }
}

/// The apps of `apps` `user` may read, in order.
pub open spec fn visible_spec(user: CurrentUser, apps: Seq<App>) -> Seq<App>
    decreases apps.len(),
{
    if apps.len() == 0 {
        apps
    } else {
        let rest = visible_spec(user, apps.drop_first());
        if app_access_allowed(user, apps[0], PermissionLevel::Read) {
            seq![apps[0]] + rest
        } else {
            rest
        }
    }
}

/// The apps a listing shows `user`: every app for an admin, the apps a
/// member holds a grant on otherwise.
pub fn visible_apps(user: &CurrentUser, apps: Vec<App>) -> (r: Vec<App>)
    ensures
        r@ == visible_spec(*user, apps@),
{
    let mut rest = apps;
    let mut out: Vec<App> = Vec::new();
    let ghost all = rest@;
    while rest.len() > 0
        invariant
            out@ + visible_spec(*user, rest@) == visible_spec(*user, all),
        decreases rest@.len(),
    {
        let ghost before = rest@;
        let app = rest.remove(0);
        assert(before.drop_first() =~= rest@);
        let allowed = match user.role {
            AccountRole::Admin => true,
            AccountRole::Member => app.has_permission(user.username.as_str(), PermissionLevel::Read),
        };
        if allowed {
            let ghost out_before = out@;
            out.push(app);
            assert(out@ + visible_spec(*user, rest@) =~= out_before + (seq![before[0]]
                + visible_spec(*user, rest@)));
        }
    }
    assert(visible_spec(*user, rest@) =~= Seq::<App>::empty());
    assert(out@ + Seq::<App>::empty() =~= out@);
    out
}

} // verus!
