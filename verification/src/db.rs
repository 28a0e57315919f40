//! What the database holds and how it maps to the model types: the tags
//! stored as text, deployment rows, permission rows, token rows.

use vstd::prelude::*;

use crate::api_tokens::verify_secret;
use crate::crypto::spec_argon2_verifies;
use crate::error::{AppError, AppResult};
use crate::models::{
    self, AppPermission, BuildInfo, Deployment, DeploymentStatus, GitDeploymentInfo,
};
use crate::text::same_text;

verus! {

/// A grant's level as stored.
#[derive(Clone, Copy, Debug, PartialEq, Eq, Structural)]
pub enum PermissionLevel {
    Read,
    Write,
}

/// The stored text of each level.
pub open spec fn permission_text(level: PermissionLevel) -> Seq<char> {
    match level {
        PermissionLevel::Read => "read"@,
        PermissionLevel::Write => "write"@,
    }
}

/// The two stored levels are spelled differently.
proof fn lemma_permission_texts_differ()
    ensures
        "read"@ != "write"@,
{
    reveal_strlit("read");
    reveal_strlit("write");
    assert("read"@.len() != "write"@.len());
}

impl PermissionLevel {
    /// The stored text of this level.
    pub fn as_str(self) -> (r: &'static str)
        ensures
            r@ == permission_text(self),
    {
        match self {
            PermissionLevel::Read => "read",
            PermissionLevel::Write => "write",
        }
    }

    /// The level stored text names; any other text is an error naming it.
    pub fn parse(value: &str) -> (r: Result<PermissionLevel, String>)
        ensures
            value@ == "read"@ ==> r == Ok::<PermissionLevel, String>(PermissionLevel::Read),
            value@ == "write"@ ==> r == Ok::<PermissionLevel, String>(PermissionLevel::Write),
            value@ != "read"@ && value@ != "write"@ ==> (r matches Err(m) && m@
                == "invalid permission level: "@ + value@),
    {
        proof {
            lemma_permission_texts_differ();
        }
        if same_text(value, "read") {
            Ok(PermissionLevel::Read)
        } else if same_text(value, "write") {
            Ok(PermissionLevel::Write)
        } else {
            let mut m = "invalid permission level: ".to_owned();
            m.append(value);
            Err(m)
        }
    }
}

/// A deployment's status tag as stored.
#[derive(Clone, Copy, Debug, PartialEq, Eq, Structural)]
pub enum DeploymentState {
    Pending,
    Ready,
    Failed,
}

/// The stored text of each state.
pub open spec fn state_text(state: DeploymentState) -> Seq<char> {
    match state {
        DeploymentState::Pending => "pending"@,
        DeploymentState::Ready => "ready"@,
        DeploymentState::Failed => "failed"@,
    }
}

/// The three stored states are spelled differently.
proof fn lemma_state_texts_differ()
    ensures
        "pending"@ != "ready"@,
        "pending"@ != "failed"@,
        "ready"@ != "failed"@,
{
    reveal_strlit("pending");
    reveal_strlit("ready");
    reveal_strlit("failed");
    assert("pending"@.len() != "ready"@.len());
    assert("pending"@.len() != "failed"@.len());
    assert("ready"@[0] != "failed"@[0]);
}

impl DeploymentState {
    /// The stored text of this state.
    pub fn as_str(self) -> (r: &'static str)
        ensures
            r@ == state_text(self),
    {
        match self {
            DeploymentState::Pending => "pending",
            DeploymentState::Ready => "ready",
            DeploymentState::Failed => "failed",
        }
    }

    /// The state stored text names; any other text is an error naming it.
    pub fn parse(value: &str) -> (r: Result<DeploymentState, String>)
        ensures
            value@ == "pending"@ ==> r == Ok::<DeploymentState, String>(DeploymentState::Pending),
            value@ == "ready"@ ==> r == Ok::<DeploymentState, String>(DeploymentState::Ready),
            value@ == "failed"@ ==> r == Ok::<DeploymentState, String>(DeploymentState::Failed),
            value@ != "pending"@ && value@ != "ready"@ && value@ != "failed"@ ==> (r matches Err(m)
                && m@ == "invalid deployment state: "@ + value@),
    {
        proof {
            lemma_state_texts_differ();
        }
        if same_text(value, "pending") {
            Ok(DeploymentState::Pending)
        } else if same_text(value, "ready") {
            Ok(DeploymentState::Ready)
        } else if same_text(value, "failed") {
            Ok(DeploymentState::Failed)
        } else {
            let mut m = "invalid deployment state: ".to_owned();
            m.append(value);
            Err(m)
        }
    }
}

/// Parsing a stored tag gives back what was stored: for levels and states
/// alike, `parse(as_str(x)) == Ok(x)`, and distinct values are stored as
/// distinct text.
pub proof fn lemma_stored_tags_round_trip(
    level: PermissionLevel,
    other_level: PermissionLevel,
    state: DeploymentState,
    other_state: DeploymentState,
)
    ensures
        permission_text(level) == "read"@ ==> level == PermissionLevel::Read,
        permission_text(level) == "write"@ ==> level == PermissionLevel::Write,
        permission_text(level) == permission_text(other_level) ==> level == other_level,
        state_text(state) == "pending"@ ==> state == DeploymentState::Pending,
        state_text(state) == "ready"@ ==> state == DeploymentState::Ready,
        state_text(state) == "failed"@ ==> state == DeploymentState::Failed,
        state_text(state) == state_text(other_state) ==> state == other_state,
{
    lemma_permission_texts_differ();
    lemma_state_texts_differ();
}

/// The model level a stored level stands for.
pub fn model_level(level: PermissionLevel) -> (r: models::PermissionLevel)
    ensures
        level == PermissionLevel::Read ==> r == models::PermissionLevel::Read,
        level == PermissionLevel::Write ==> r == models::PermissionLevel::Write,
{
    match level {
        PermissionLevel::Read => models::PermissionLevel::Read,
        PermissionLevel::Write => models::PermissionLevel::Write,
    }
}

/// The stored level a model level is written as.
pub fn stored_level(level: models::PermissionLevel) -> (r: PermissionLevel)
    ensures
        level == models::PermissionLevel::Read ==> r == PermissionLevel::Read,
        level == models::PermissionLevel::Write ==> r == PermissionLevel::Write,
{
    match level {
        models::PermissionLevel::Read => PermissionLevel::Read,
        models::PermissionLevel::Write => PermissionLevel::Write,
    }
}

// ---------------------------------------------------------------------
// Deployment rows
// ---------------------------------------------------------------------

/// A deployment row, with its JSON columns already decoded.
#[derive(Debug, PartialEq, Eq)]
pub struct DeploymentRow {
    pub id: String,
    pub created_at: i64,
    pub original_filename: Option<String>,
    pub upload_size_bytes: i64,
    pub git_info: Option<GitDeploymentInfo>,
    pub build_info: Option<BuildInfo>,
    pub container_name: Option<String>,
    pub status: String,
    pub failure_error: Option<String>,
}

/// A byte count as stored: counts past `i64::MAX` are stored as `i64::MAX`.
pub fn size_to_row(bytes: u64) -> (r: i64)
    ensures
        bytes <= i64::MAX ==> r == bytes,
        bytes > i64::MAX ==> r == i64::MAX,
{
    if bytes <= 9_223_372_036_854_775_807u64 {
        bytes as i64
    } else {
        i64::MAX
    }
}

/// A stored byte count read back: a negative one reads as 0.
pub fn size_from_row(stored: i64) -> (r: u64)
    ensures
        stored >= 0 ==> r == stored,
        stored < 0 ==> r == 0,
{
    if stored >= 0 {
        stored as u64
    } else {
        0
    }
}

/// The stored status tag and failure text of a deployment status.
pub open spec fn status_row_spec(status: DeploymentStatus) -> (DeploymentState, Option<Seq<char>>) {
    match status {
        DeploymentStatus::Pending => (DeploymentState::Pending, None),
        DeploymentStatus::Ready => (DeploymentState::Ready, None),
        DeploymentStatus::Failed { error } => (DeploymentState::Failed, Some(error@)),
    }
}

/// A deployment status as its stored tag and failure text.
pub fn status_to_row(status: DeploymentStatus) -> (r: (DeploymentState, Option<String>))
    ensures
        r.0 == status_row_spec(status).0,
        match r.1 {
            Some(e) => status_row_spec(status).1 == Some(e@),
            None => status_row_spec(status).1 is None,
        },
{
    match status {
        DeploymentStatus::Pending => (DeploymentState::Pending, None),
        DeploymentStatus::Ready => (DeploymentState::Ready, None),
        DeploymentStatus::Failed { error } => (DeploymentState::Failed, Some(error)),
    }
}

/// The status a stored tag and failure text read back as: a failed one
/// with no text reads as failed with empty text.
pub fn status_from_row(state: DeploymentState, failure_error: Option<String>) -> (r: DeploymentStatus)
    ensures
        state == DeploymentState::Pending ==> r is Pending,
        state == DeploymentState::Ready ==> r is Ready,
        state == DeploymentState::Failed ==> (r matches DeploymentStatus::Failed { error } && error@
            == match failure_error {
            Some(e) => e@,
            None => Seq::<char>::empty(),
        }),
{
    match state {
        DeploymentState::Pending => DeploymentStatus::Pending,
        DeploymentState::Ready => DeploymentStatus::Ready,
        DeploymentState::Failed => DeploymentStatus::Failed {
            error: match failure_error {
                Some(e) => e,
                None => String::new(),
            },
        },
    }
}

/// A status written and read back is the status written.
pub proof fn lemma_status_round_trips(status: DeploymentStatus, state: DeploymentState, error: Option<Seq<char>>)
    requires
        (state, error) == status_row_spec(status),
    ensures
        status is Pending ==> state == DeploymentState::Pending && error is None,
        status is Ready ==> state == DeploymentState::Ready && error is None,
        status matches DeploymentStatus::Failed { error: e } ==> state == DeploymentState::Failed
            && error == Some(e@),
{
}

/// The first second since the Unix epoch a timestamp can hold
/// (`jiff::Timestamp::MIN`).
pub const TIMESTAMP_MIN_SECOND: i64 = -377_705_023_201;

/// The last second since the Unix epoch a timestamp can hold
/// (`jiff::Timestamp::MAX`).
pub const TIMESTAMP_MAX_SECOND: i64 = 253_402_207_200;

/// Name for the text of the range error `jiff::Timestamp::from_second`
/// reports for `second`.
pub uninterp spec fn spec_timestamp_range_error(second: i64) -> Seq<char>;

/// Calls `jiff::Timestamp::from_second`, which by its documentation fails
/// exactly on seconds outside `Timestamp::MIN..=Timestamp::MAX`, and gives
/// back the instant's seconds (`as_second`): the seconds it was built
/// from. The error is carried as its text.
#[verifier::external_body]
fn timestamp_from_second(second: i64) -> (r: Result<i64, String>)
    ensures
        r is Ok <==> TIMESTAMP_MIN_SECOND <= second <= TIMESTAMP_MAX_SECOND,
        r matches Ok(s) ==> s == second,
        r matches Err(m) ==> m@ == spec_timestamp_range_error(second),
{
    match jiff::Timestamp::from_second(second) {
        Ok(t) => Ok(t.as_second()),
        Err(e) => Err(format!("{e}")),
    }
}

/// The deployment a row describes, under `app_name`. A status tag that is
/// not one of the stored states is corrupt data; a creation time outside
/// the range a timestamp can hold is a timestamp error.
pub fn deployment_from_row(row: DeploymentRow, app_name: &str) -> (r: AppResult<Deployment>)
    ensures
        row.status@ != "pending"@ && row.status@ != "ready"@ && row.status@ != "failed"@ ==> (
        r matches Err(AppError::CorruptData(m)) && m@ == "invalid deployment state: "@
            + row.status@),
        (row.status@ == "pending"@ || row.status@ == "ready"@ || row.status@ == "failed"@) && !(
        TIMESTAMP_MIN_SECOND <= row.created_at <= TIMESTAMP_MAX_SECOND) ==> (r matches Err(
            AppError::Timestamp(m),
        ) && m@ == spec_timestamp_range_error(row.created_at)),
        (row.status@ == "pending"@ || row.status@ == "ready"@ || row.status@ == "failed"@) && (
        TIMESTAMP_MIN_SECOND <= row.created_at <= TIMESTAMP_MAX_SECOND) ==> (r matches Ok(d) && {
            &&& d.id == row.id
            &&& d.app@ == app_name@
            &&& d.created_at == row.created_at
            &&& d.original_filename == row.original_filename
            &&& d.upload_size_bytes == (if row.upload_size_bytes >= 0 {
                row.upload_size_bytes as u64
            } else {
                0u64
            })
            &&& d.git == row.git_info
            &&& d.build_info == row.build_info
            &&& d.container_name == row.container_name
            &&& (row.status@ == "pending"@ ==> d.status is Pending)
            &&& (row.status@ == "ready"@ ==> d.status is Ready)
            &&& (row.status@ == "failed"@ ==> (d.status matches DeploymentStatus::Failed { error }
                && error@ == match row.failure_error {
                Some(e) => e@,
                None => Seq::<char>::empty(),
            }))
        }),
{
    let state = match DeploymentState::parse(row.status.as_str()) {
        Ok(s) => s,
        Err(m) => return Err(AppError::CorruptData(m)),
    };
    let status = status_from_row(state, row.failure_error);
    let created_at = match timestamp_from_second(row.created_at) {
        Ok(second) => second,
        Err(m) => return Err(AppError::Timestamp(m)),
    };
    Ok(Deployment {
        id: row.id,
        app: app_name.to_owned(),
        created_at,
        original_filename: row.original_filename,
        upload_size_bytes: size_from_row(row.upload_size_bytes),
        git: row.git_info,
        build_info: row.build_info,
        container_name: row.container_name,
        status,
    })
}

/// Whether some row's stored status is `pending`.
pub fn any_pending(statuses: &[String]) -> (r: bool)
    ensures
        r == exists|i: int| 0 <= i < statuses@.len() && #[trigger] statuses@[i]@ == "pending"@,
{
    let mut i: usize = 0;
    while i < statuses.len()
        invariant
            0 <= i <= statuses@.len(),
            forall|j: int| 0 <= j < i ==> #[trigger] statuses@[j]@ != "pending"@,
        decreases statuses@.len() - i,
    {
        if same_text(statuses[i].as_str(), DeploymentState::Pending.as_str()) {
            return true;
        }
        i = i + 1;
    }
    false
}

/// An active deployment can't be deleted.
pub fn check_deletable(active_deployment_id: Option<&str>, deployment_id: &str) -> (r: AppResult<()>)
    ensures
        (active_deployment_id matches Some(a) && a@ == deployment_id@) ==> r == Err::<(), AppError>(
            AppError::DeleteActiveDeployment,
        ),
        !(active_deployment_id matches Some(a) && a@ == deployment_id@) ==> r is Ok,
{
    match active_deployment_id {
        Some(active) => {
            if same_text(active, deployment_id) {
                Err(AppError::DeleteActiveDeployment)
            } else {
                Ok(())
            }
        },
        None => Ok(()),
    }
}

// ---------------------------------------------------------------------
// Permission rows
// ---------------------------------------------------------------------

/// A stored grant: which user, at what stored level.
#[derive(Debug, PartialEq, Eq)]
pub struct PermissionRow {
    pub user_id: i64,
    pub level: String,
}

/// A user's id and name.
#[derive(Debug, PartialEq, Eq)]
pub struct UserName {
    pub id: i64,
    pub username: String,
}

/// The name of the first user in `users` with id `id`, if any.
pub open spec fn first_user_name(users: Seq<UserName>, id: i64) -> Option<Seq<char>>
    decreases users.len(),
{
    if users.len() == 0 {
        None
    } else if users[0].id == id {
        Some(users[0].username@)
    } else {
        first_user_name(users.drop_first(), id)
    }
}

/// The first user with id `id`, if any.
fn find_user(users: &[UserName], id: i64) -> (r: Option<usize>)
    ensures
        r matches Some(k) ==> k < users@.len() && first_user_name(users@, id) == Some(
            users@[k as int].username@,
        ),
        r is None ==> first_user_name(users@, id) is None,
{
    let mut k: usize = 0;
    assert(users@.skip(0) =~= users@);
    while k < users.len()
        invariant
            0 <= k <= users@.len(),
            first_user_name(users@, id) == first_user_name(users@.skip(k as int), id),
        decreases users@.len() - k,
    {
        assert(users@.skip(k as int)[0] == users@[k as int]);
        if users[k].id == id {
            return Some(k);
        }
        assert(users@.skip(k as int).drop_first() =~= users@.skip(k + 1));
        k = k + 1;
    }
    None
}

/// A grant row whose user exists carries a level that is not a stored
/// level.
pub open spec fn row_corrupt(row: PermissionRow, users: Seq<UserName>) -> bool {
    first_user_name(users, row.user_id) is Some && row.level@ != "read"@ && row.level@ != "write"@
}

/// The model level stored text stands for (`write`, else read).
pub open spec fn level_of_text(text: Seq<char>) -> models::PermissionLevel {
    if text == "write"@ {
        models::PermissionLevel::Write
    } else {
        models::PermissionLevel::Read
    }
}

/// The grants permission rows describe, in row order: each row whose user
/// exists, named by that user, at its stored level.
pub open spec fn grants_spec(rows: Seq<PermissionRow>, users: Seq<UserName>) -> Seq<
    (Seq<char>, models::PermissionLevel),
>
    decreases rows.len(),
{
    if rows.len() == 0 {
        Seq::empty()
    } else {
        let prev = grants_spec(rows.drop_last(), users);
        match first_user_name(users, rows.last().user_id) {
            Some(name) => prev.push((name, level_of_text(rows.last().level@))),
            None => prev,
        }
    }
}

/// The grants as (username, level) pairs.
pub open spec fn grants_view(perms: Seq<AppPermission>) -> Seq<(Seq<char>, models::PermissionLevel)> {
    Seq::new(perms.len(), |p: int| (perms[p].username@, perms[p].level))
}

/// The grants of an app from its permission rows, in row order, each named
/// by its user. A grant whose user no longer exists is skipped rather than
/// failing the whole read; a stored level that is not `read` or `write` is
/// corrupt data.
pub fn permissions_from_rows(rows: &[PermissionRow], users: &[UserName]) -> (r: AppResult<
    Vec<AppPermission>,
>)
    ensures
        r is Err <==> exists|i: int| 0 <= i < rows@.len() && row_corrupt(#[trigger] rows@[i], users@),
        r matches Err(e) ==> e is CorruptData,
        r matches Ok(perms) ==> grants_view(perms@) == grants_spec(rows@, users@),
{
    let mut perms: Vec<AppPermission> = Vec::new();
    let mut i: usize = 0;
    assert(rows@.take(0) =~= Seq::<PermissionRow>::empty());
    while i < rows.len()
        invariant
            0 <= i <= rows@.len(),
            forall|j: int| 0 <= j < i ==> !row_corrupt(#[trigger] rows@[j], users@),
            grants_view(perms@) == grants_spec(rows@.take(i as int), users@),
        decreases rows@.len() - i,
    {
        let row = &rows[i];
        let ghost before = perms@;
        assert(rows@.take(i + 1).drop_last() =~= rows@.take(i as int));
        assert(rows@.take(i + 1).last() == rows@[i as int]);
        match find_user(users, row.user_id) {
            None => {
                assert(grants_view(perms@) =~= grants_spec(rows@.take(i + 1), users@));
            },
            Some(k) => {
                let level = match PermissionLevel::parse(row.level.as_str()) {
                    Ok(l) => l,
                    Err(m) => {
                        assert(row_corrupt(rows@[i as int], users@));
                        return Err(AppError::CorruptData(m));
                    },
                };
                perms.push(AppPermission {
                    username: users[k].username.clone(),
                    level: model_level(level),
                });
                proof {
                    reveal_strlit("read");
                    reveal_strlit("write");
                    assert(grants_view(perms@) =~= grants_view(before).push(
                        (users@[k as int].username@, model_level_spec(level)),
                    ));
                    assert(grants_view(perms@) =~= grants_spec(rows@.take(i + 1), users@));
                }
            },
        }
        i = i + 1;
    }
    assert(rows@.take(rows@.len() as int) =~= rows@);
    Ok(perms)
}

/// The model level a stored level stands for.
pub open spec fn model_level_spec(level: PermissionLevel) -> models::PermissionLevel {
    match level {
        PermissionLevel::Read => models::PermissionLevel::Read,
        PermissionLevel::Write => models::PermissionLevel::Write,
    }
}

// ---------------------------------------------------------------------
// Token rows
// ---------------------------------------------------------------------

/// A token row lets its user in at `now` when it isn't revoked, hasn't
/// expired, and the presented secret verifies against its hash.
pub open spec fn token_grants_access_spec(
    revoked: bool,
    expires_at: int,
    now: int,
    secret: Seq<char>,
    token_hash: Seq<char>,
) -> bool {
    !revoked && expires_at > now && spec_argon2_verifies(secret, token_hash)
}

/// A token grants access exactly while it is live: never once its expiry
/// is at or before `now`, never once revoked, never with a secret its hash
/// does not verify; and a live, unrevoked token with the right secret
/// always does.
pub proof fn lemma_expired_tokens_grant_nothing(
    revoked: bool,
    expires_at: int,
    now: int,
    secret: Seq<char>,
    token_hash: Seq<char>,
)
    ensures
        expires_at <= now ==> !token_grants_access_spec(revoked, expires_at, now, secret, token_hash),
        revoked ==> !token_grants_access_spec(revoked, expires_at, now, secret, token_hash),
        !spec_argon2_verifies(secret, token_hash) ==> !token_grants_access_spec(
            revoked,
            expires_at,
            now,
            secret,
            token_hash,
        ),
        !revoked && expires_at > now && spec_argon2_verifies(secret, token_hash)
            ==> token_grants_access_spec(revoked, expires_at, now, secret, token_hash),
{
}

/// Whether a token row lets its user in at `now` for `secret`; the hash is
/// only checked for a live token.
pub fn token_grants_access(revoked: bool, expires_at: i64, now: i64, secret: &str, token_hash: &str) -> (r:
    bool)
    ensures
        r == token_grants_access_spec(revoked, expires_at as int, now as int, secret@, token_hash@),
        expires_at <= now ==> !r,
        revoked ==> !r,
        r ==> spec_argon2_verifies(secret@, token_hash@),
        !revoked && expires_at > now && spec_argon2_verifies(secret@, token_hash@) ==> r,
{
    if revoked || expires_at <= now {
        return false;
    }
    verify_secret(secret, token_hash)
}

} // verus!
