//! User accounts: roles, username and password rules, password hashing.

use vstd::prelude::*;
use vstd::utf8::encode_utf8;

use crate::crypto::{argon2_hash, argon2_verify, spec_argon2_verifies};
use crate::error::{AppError, AppResult};
use crate::text::chars_of;

verus! {

/// Shortest accepted username, in characters.
pub const MIN_USERNAME_LEN: usize = 3;

/// Shortest accepted password, in bytes of its UTF-8 encoding.
pub const MIN_PASSWORD_LEN: usize = 5;

/// An account's platform-wide role.
#[derive(Clone, Copy, Debug, PartialEq, Eq, Structural)]
pub enum AccountRole {
    /// Full access to every app, plus user management.
    Admin,
    /// No access by default; see per-app `AppPermission` grants.
    Member,
}

/// The stored name of each role.
pub open spec fn role_name(role: AccountRole) -> Seq<char> {
    match role {
        AccountRole::Admin => "admin"@,
        AccountRole::Member => "member"@,
    }
}

impl AccountRole {
    /// The stored name of this role.
    pub fn as_str(self) -> (r: &'static str)
        ensures
            r@ == role_name(self),
    {
        match self {
            AccountRole::Admin => "admin",
            AccountRole::Member => "member",
        }
    }

    /// The role a stored name denotes; any other text is an invalid role.
    pub fn parse(s: &str) -> (r: AppResult<AccountRole>)
        ensures
            s@ == "admin"@ ==> r == Ok::<AccountRole, AppError>(AccountRole::Admin),
            s@ == "member"@ ==> r == Ok::<AccountRole, AppError>(AccountRole::Member),
            s@ != "admin"@ && s@ != "member"@ ==> (r matches Err(AppError::InvalidRole(m)) && m@
                == s@),
    {
        proof {
            lemma_role_names_differ();
        }
        let v = chars_of(s);
        let admin = chars_of("admin");
        let member = chars_of("member");
        if crate::text::chars_eq(&v, &admin) {
            Ok(AccountRole::Admin)
        } else if crate::text::chars_eq(&v, &member) {
            Ok(AccountRole::Member)
        } else {
            Err(AppError::InvalidRole(s.to_owned()))
        }
    }
}

/// The two stored role names are distinct.
proof fn lemma_role_names_differ()
    ensures
        "admin"@ != "member"@,
{
    reveal_strlit("admin");
    reveal_strlit("member");
    assert("admin"@.len() != "member"@.len());
}

/// Parsing a role's stored name gives the role back, and distinct roles
/// have distinct names.
pub proof fn lemma_role_name_round_trips(role: AccountRole, other: AccountRole)
    ensures
        role_name(role) == "admin"@ ==> role == AccountRole::Admin,
        role_name(role) == "member"@ ==> role == AccountRole::Member,
        role_name(role) == role_name(other) ==> role == other,
{
    lemma_role_names_differ();
}

/// The role a user row's stored role text denotes.
pub fn user_role(stored_role: &str) -> (r: AppResult<AccountRole>)
    ensures
        stored_role@ == "admin"@ ==> r == Ok::<AccountRole, AppError>(AccountRole::Admin),
        stored_role@ == "member"@ ==> r == Ok::<AccountRole, AppError>(AccountRole::Member),
        stored_role@ != "admin"@ && stored_role@ != "member"@ ==> (r matches Err(
            AppError::InvalidRole(m),
        ) && m@ == stored_role@),
{
    AccountRole::parse(stored_role)
}

/// A username: at least three characters, starting with a lowercase ASCII
/// letter, then only `a-z`, `0-9` and `_`. (Every accepted character is
/// ASCII, so counting characters and counting bytes agree.)
pub open spec fn valid_username_spec(u: Seq<char>) -> bool {
    &&& u.len() >= 3
    &&& 'a' <= u[0] && u[0] <= 'z'
    &&& forall|i: int|
        0 <= i < u.len() ==> (('a' <= #[trigger] u[i] && u[i] <= 'z') || ('0' <= u[i] && u[i]
            <= '9') || u[i] == '_')
}

/// Username format: must start with a letter, then any of `a-z0-9_`,
/// always lowercase, at least `MIN_USERNAME_LEN` chars.
pub fn validate_username(username: &str) -> (r: AppResult<()>)
    ensures
        r is Ok <==> valid_username_spec(username@),
        r matches Err(e) ==> (e matches AppError::InvalidUsername(m) && m@ == username@),
{
    let u = chars_of(username);
    let mut valid = u.len() >= MIN_USERNAME_LEN && 'a' <= u[0] && u[0] <= 'z';
    let mut i: usize = 0;
    while i < u.len()
        invariant
            0 <= i <= u@.len(),
            valid ==> u@.len() >= 3 && 'a' <= u@[0] && u@[0] <= 'z',
            valid ==> forall|j: int|
                0 <= j < i ==> (('a' <= #[trigger] u@[j] && u@[j] <= 'z') || ('0' <= u@[j]
                    && u@[j] <= '9') || u@[j] == '_'),
            !valid ==> !valid_username_spec(u@),
        decreases u@.len() - i,
    {
        let c = u[i];
        if !(('a' <= c && c <= 'z') || ('0' <= c && c <= '9') || c == '_') {
            valid = false;
        }
        i = i + 1;
    }
    if valid {
        Ok(())
    } else {
        Err(AppError::InvalidUsername(username.to_owned()))
    }
}

/// A password must be at least `MIN_PASSWORD_LEN` bytes long.
pub fn validate_password(password: &str) -> (r: AppResult<()>)
    ensures
        r is Ok <==> password.len() >= MIN_PASSWORD_LEN,
        r matches Err(e) ==> (e matches AppError::InvalidPassword(m) && m@
            == "password must be at least 5 characters"@),
{
    if password.len() >= MIN_PASSWORD_LEN {
        Ok(())
    } else {
        Err(AppError::InvalidPassword("password must be at least 5 characters".to_owned()))
    }
}

/// Hashes a password with Argon2 (default parameters, random salt); a
/// hashing failure - only a password of more than `0xFFFF_FFFF` bytes - is
/// reported with its message.
pub fn hash_password(password: &str) -> (r: AppResult<String>)
    ensures
        encode_utf8(password@).len() <= 0xFFFF_FFFF ==> r is Ok,
        r matches Ok(h) ==> spec_argon2_verifies(password@, h@),
        r matches Err(e) ==> e is PasswordHash,
{
    match argon2_hash(password) {
        Ok(hash) => Ok(hash),
        Err(err) => Err(AppError::PasswordHash(err.to_string())),
    }
}

/// Whether `password` verifies against the stored `hash`; a malformed hash
/// verifies nothing.
pub fn verify_password(password: &str, hash: &str) -> (r: bool)
    ensures
        r == spec_argon2_verifies(password@, hash@),
{
    argon2_verify(password, hash)
}

} // verus!
