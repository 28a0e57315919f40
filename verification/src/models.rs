//! Apps, their sources and deployments, and the input rules they are held to.

use vstd::prelude::*;

use crate::text::{chars_of, is_blank, is_blank_str, same_text, starts_with_chars, has_prefix};

verus! {

/// Validation failures for the model types below.
#[derive(Debug, PartialEq, Eq)]
pub enum ModelError {
    InvalidName(String),
    InvalidRepoUrl(String),
    InvalidRunConfig(String),
    InvalidBuildConfig(String),
    InvalidEnvVar(String),
}

pub type ModelResult<T> = Result<T, ModelError>;

/// Per-app access level granted to a `Member`.
#[derive(Clone, Copy, Debug, PartialEq, Eq, Structural)]
pub enum PermissionLevel {
    /// Read app config, deployments, logs, stats.
    Read,
    /// Everything `Read` allows, plus deploy, activate, env vars, delete.
    Write,
}

/// `held` is at least as strong as `required`.
pub open spec fn level_satisfies(held: PermissionLevel, required: PermissionLevel) -> bool {
    held == PermissionLevel::Write || required == PermissionLevel::Read
}

impl PermissionLevel {
    /// `Write` satisfies a `Read` requirement; `Read` does not satisfy `Write`.
    pub fn satisfies(self, required: Self) -> (r: bool)
        ensures
            r == level_satisfies(self, required),
    {
        match (self, required) {
            (PermissionLevel::Write, _) => true,
            (PermissionLevel::Read, PermissionLevel::Read) => true,
            (PermissionLevel::Read, PermissionLevel::Write) => false,
        }
    }
}

/// One `Member`'s access grant on an app.
#[derive(Debug, PartialEq, Eq)]
pub struct AppPermission {
    pub username: String,
    pub level: PermissionLevel,
}

/// An environment variable's value: plaintext, or (already-decrypted or
/// still-encrypted) secret text.
#[derive(Debug, PartialEq, Eq)]
pub enum EnvVarValue {
    Plain(String),
    /// Ciphertext.
    Secret(String),
}

impl EnvVarValue {
    /// The payload of either variant.
    pub open spec fn payload(&self) -> Seq<char> {
        match self {
            EnvVarValue::Plain(v) => v@,
            EnvVarValue::Secret(v) => v@,
        }
    }

    /// The raw string payload regardless of variant.
    pub fn as_str(&self) -> (r: &str)
        ensures
            r@ == self.payload(),
    {
        match self {
            EnvVarValue::Plain(value) => value.as_str(),
            EnvVarValue::Secret(value) => value.as_str(),
        }
    }
}

#[derive(Debug, PartialEq, Eq)]
pub struct EnvVar {
    pub key: String,
    pub value: EnvVarValue,
}

/// Create/update wire value. `Secret(None)` means "keep the existing
/// encrypted value" (update only).
#[derive(Debug, PartialEq, Eq)]
pub enum EnvVarInputValue {
    Plain(String),
    Secret(Option<String>),
}

#[derive(Debug, PartialEq, Eq)]
pub struct EnvVarInput {
    pub key: String,
    pub value: EnvVarInputValue,
}

/// Where an app's content comes from.
#[derive(Debug, PartialEq, Eq)]
pub enum AppSource {
    Upload,
    Git(GitSource),
}

impl Default for AppSource {
    fn default() -> (r: Self)
        ensures
            r is Upload,
    {
        AppSource::Upload
    }
}

#[derive(Debug, PartialEq, Eq)]
pub struct GitSource {
    pub repo_url: String,
    pub branch: String,
    pub mode: GitDeployMode,
}

/// The three ways a git-sourced app can be served - exactly one at a time.
#[derive(Debug, PartialEq, Eq)]
pub enum GitDeployMode {
    Static { publish_dir: Option<String> },
    Build(BuildConfig),
    Run(RunConfig),
}

impl Default for GitDeployMode {
    fn default() -> (r: Self)
        ensures
            r matches GitDeployMode::Static { publish_dir: None },
    {
        GitDeployMode::Static { publish_dir: None }
    }
}

#[derive(Debug, PartialEq, Eq)]
pub struct BuildConfig {
    pub image: RunImage,
    pub command: String,
    pub output_dir: String,
}

#[derive(Debug, PartialEq, Eq)]
pub struct RunConfig {
    pub image: RunImage,
    pub install_command: Option<String>,
    pub start_command: String,
    pub container_port: u16,
}

/// The curated catalog of container images.
#[derive(Clone, Copy, Debug, PartialEq, Eq, Structural)]
pub enum RunImage {
    Node24,
    Python314,
}

/// The image reference each catalog entry maps to.
pub open spec fn image_tag_spec(image: RunImage) -> Seq<char> {
    match image {
        RunImage::Node24 => "docker.io/library/node:24"@,
        RunImage::Python314 => "docker.io/library/python:3.14"@,
    }
}

impl RunImage {
    /// The curated catalog this maps to - deliberately not arbitrary
    /// images/Dockerfiles.
    pub fn image_tag(self) -> (r: &'static str)
        ensures
            r@ == image_tag_spec(self),
    {
        match self {
            RunImage::Node24 => "docker.io/library/node:24",
            RunImage::Python314 => "docker.io/library/python:3.14",
        }
    }
}

/// An app, with timestamps held as epoch seconds.
#[derive(Debug, PartialEq, Eq)]
pub struct App {
    pub id: String,
    pub name: String,
    pub created_at: i64,
    pub updated_at: i64,
    pub host_id: i64,
    pub source: AppSource,
    /// Injected into run-mode containers and install/build commands.
    pub env_vars: Vec<EnvVar>,
    /// Per-`Member` access grants.
    pub permissions: Vec<AppPermission>,
}

/// Some grant in `grants` names `username` at a level that satisfies
/// `required`.
pub open spec fn grants_allow(grants: Seq<AppPermission>, username: Seq<char>, required: PermissionLevel) -> bool {
    exists|i: int|
        0 <= i < grants.len() && #[trigger] grants[i].username@ == username
            && level_satisfies(grants[i].level, required)
}

/// The run config of a git source in run mode.
pub open spec fn run_config_of(source: AppSource) -> Option<RunConfig> {
    match source {
        AppSource::Git(g) => match g.mode {
            GitDeployMode::Run(run) => Some(run),
            _ => None,
        },
        AppSource::Upload => None,
    }
}

impl App {
    /// Whether `username` (a `Member`, not `Admin` - callers check that
    /// separately) has at least `required` access to this app.
    pub fn has_permission(&self, username: &str, required: PermissionLevel) -> (r: bool)
        ensures
            r == grants_allow(self.permissions@, username@, required),
    {
        let mut i: usize = 0;
        while i < self.permissions.len()
            invariant
                0 <= i <= self.permissions@.len(),
                forall|j: int|
                    0 <= j < i ==> !(#[trigger] self.permissions@[j].username@ == username@
                        && level_satisfies(self.permissions@[j].level, required)),
            decreases self.permissions@.len() - i,
        {
            let grant = &self.permissions[i];
            if same_text(grant.username.as_str(), username) && grant.level.satisfies(required) {
                return true;
            }
            i = i + 1;
        }
        false
    }

    /// The run config, for a git-sourced app in run mode.
    pub fn run_config(&self) -> (r: Option<&RunConfig>)
        ensures
            r matches Some(run) ==> run_config_of(self.source) == Some(*run),
            r is None ==> run_config_of(self.source) is None,
    {
        match &self.source {
            AppSource::Git(git_source) => match &git_source.mode {
                GitDeployMode::Run(run) => Some(run),
                GitDeployMode::Static { .. } => None,
                GitDeployMode::Build(_) => None,
            },
            AppSource::Upload => None,
        }
    }
}

/// Lifecycle state of a deployment.
#[derive(Debug, PartialEq, Eq)]
pub enum DeploymentStatus {
    Pending,
    Ready,
    Failed { error: String },
}

impl DeploymentStatus {
    /// The status a deployment written before status existed reads back as.
    pub fn default_ready() -> (r: Self)
        ensures
            r is Ready,
    {
        DeploymentStatus::Ready
    }
}

#[derive(Debug, PartialEq, Eq)]
pub struct GitDeploymentInfo {
    pub commit_sha: String,
    pub branch: String,
}

#[derive(Debug, PartialEq, Eq)]
pub struct BuildInfo {
    pub image: RunImage,
    pub command: String,
}

/// A deployment, with its creation time held as epoch seconds.
#[derive(Debug, PartialEq, Eq)]
pub struct Deployment {
    pub id: String,
    pub app: String,
    pub created_at: i64,
    pub original_filename: Option<String>,
    pub upload_size_bytes: u64,
    pub git: Option<GitDeploymentInfo>,
    pub build_info: Option<BuildInfo>,
    /// Deterministic name of the container backing a run-mode deployment.
    pub container_name: Option<String>,
    pub status: DeploymentStatus,
}

// ---------------------------------------------------------------------
// Input rules
// ---------------------------------------------------------------------

/// A repo URL starts with one of the accepted schemes.
pub open spec fn repo_url_allowed(url: Seq<char>) -> bool {
    has_prefix(url, "https://"@) || has_prefix(url, "http://"@) || has_prefix(url, "ssh://"@)
        || has_prefix(url, "git://"@)
}

/// Only `https://`/`http://`/`ssh://`/`git://` are accepted - a cheap
/// footgun guard, not a hard security boundary.
pub fn validate_repo_url(repo_url: &str) -> (r: ModelResult<()>)
    ensures
        r is Ok <==> repo_url_allowed(repo_url@),
        r matches Err(e) ==> e matches ModelError::InvalidRepoUrl(s) && s@ == repo_url@,
{
    let url = chars_of(repo_url);
    let allowed = ["https://", "http://", "ssh://", "git://"];
    let mut i: usize = 0;
    while i < 4
        invariant
            0 <= i <= 4,
            url@ == repo_url@,
            allowed@ == seq!["https://", "http://", "ssh://", "git://"],
            forall|j: int| 0 <= j < i ==> !has_prefix(url@, #[trigger] allowed@[j]@),
        decreases 4 - i,
    {
        let prefix = chars_of(allowed[i]);
        if starts_with_chars(&url, &prefix) {
            return Ok(());
        }
        i = i + 1;
    }
    assert(!has_prefix(url@, allowed@[0]@));
    assert(!has_prefix(url@, allowed@[1]@));
    assert(!has_prefix(url@, allowed@[2]@));
    assert(!has_prefix(url@, allowed@[3]@));
    Err(ModelError::InvalidRepoUrl(repo_url.to_owned()))
}

/// A run config is accepted when its port is non-zero and its start
/// command is not blank.
pub fn validate_run_config(run: &RunConfig) -> (r: ModelResult<()>)
    ensures
        run.container_port == 0 ==> (r matches Err(ModelError::InvalidRunConfig(m))
            && m@ == "container port must be 1-65535"@),
        run.container_port != 0 && is_blank(run.start_command@) ==> (r matches Err(
            ModelError::InvalidRunConfig(m),
        ) && m@ == "start command is required in run mode"@),
        r is Ok <==> run.container_port != 0 && !is_blank(run.start_command@),
{
    if run.container_port == 0 {
        return Err(ModelError::InvalidRunConfig("container port must be 1-65535".to_owned()));
    }
    if is_blank_str(run.start_command.as_str()) {
        return Err(
            ModelError::InvalidRunConfig("start command is required in run mode".to_owned()),
        );
    }
    Ok(())
}

/// A build config is accepted when neither its command nor its output dir
/// is blank.
pub fn validate_build_config(build: &BuildConfig) -> (r: ModelResult<()>)
    ensures
        is_blank(build.command@) ==> (r matches Err(ModelError::InvalidBuildConfig(m))
            && m@ == "build command is required"@),
        !is_blank(build.command@) && is_blank(build.output_dir@) ==> (r matches Err(
            ModelError::InvalidBuildConfig(m),
        ) && m@ == "output dir is required"@),
        r is Ok <==> !is_blank(build.command@) && !is_blank(build.output_dir@),
{
    if is_blank_str(build.command.as_str()) {
        return Err(ModelError::InvalidBuildConfig("build command is required".to_owned()));
    }
    if is_blank_str(build.output_dir.as_str()) {
        return Err(ModelError::InvalidBuildConfig("output dir is required".to_owned()));
    }
    Ok(())
}

/// ASCII letter.
pub open spec fn is_ascii_alpha(c: char) -> bool {
    ('a' <= c && c <= 'z') || ('A' <= c && c <= 'Z')
}

/// ASCII digit.
pub open spec fn is_ascii_digit_spec(c: char) -> bool {
    '0' <= c && c <= '9'
}

/// An identifier: `[A-Za-z_][A-Za-z0-9_]*`.
pub open spec fn valid_env_key_spec(key: Seq<char>) -> bool {
    &&& key.len() > 0
    &&& (is_ascii_alpha(key[0]) || key[0] == '_')
    &&& forall|i: int|
        0 <= i < key.len() ==> (is_ascii_alpha(#[trigger] key[i]) || is_ascii_digit_spec(key[i])
            || key[i] == '_')
}

/// Whether `key` is an identifier (`[A-Za-z_][A-Za-z0-9_]*`).
pub fn valid_env_var_key(key: &str) -> (r: bool)
    ensures
        r == valid_env_key_spec(key@),
{
    let k = chars_of(key);
    if k.len() == 0 {
        return false;
    }
    let first = k[0];
    if !(('a' <= first && first <= 'z') || ('A' <= first && first <= 'Z') || first == '_') {
        return false;
    }
    let mut i: usize = 0;
    while i < k.len()
        invariant
            0 <= i <= k@.len(),
            k@ == key@,
            forall|j: int|
                0 <= j < i ==> (is_ascii_alpha(#[trigger] k@[j]) || is_ascii_digit_spec(k@[j])
                    || k@[j] == '_'),
        decreases k@.len() - i,
    {
        let c = k[i];
        if !(('a' <= c && c <= 'z') || ('A' <= c && c <= 'Z') || ('0' <= c && c <= '9')
            || c == '_') {
            assert(!(is_ascii_alpha(k@[i as int]) || is_ascii_digit_spec(k@[i as int]) || k@[i as int] == '_'));
            return false;
        }
        i = i + 1;
    }
    true
}

/// Entry `i` of `inputs` is rejected: its key is no identifier, or an
/// earlier entry has the same key.
pub open spec fn env_input_bad(inputs: Seq<EnvVarInput>, i: int) -> bool {
    !valid_env_key_spec(inputs[i].key@) || exists|j: int|
        0 <= j < i && #[trigger] inputs[j].key@ == inputs[i].key@
}

/// Rejects the first key that isn't an identifier
/// (`[A-Za-z_][A-Za-z0-9_]*`), or the first key that repeats.
pub fn validate_env_var_inputs(env_vars: &[EnvVarInput]) -> (r: ModelResult<()>)
    ensures
        r is Ok <==> forall|i: int| 0 <= i < env_vars@.len() ==> !#[trigger] env_input_bad(env_vars@, i),
        r matches Err(e) ==> exists|i: int|
            0 <= i < env_vars@.len() && #[trigger] env_input_bad(env_vars@, i) && (forall|j: int|
                0 <= j < i ==> !env_input_bad(env_vars@, j)) && (e matches ModelError::InvalidEnvVar(k)
                && k@ == env_vars@[i].key@),
{
    let mut i: usize = 0;
    while i < env_vars.len()
        invariant
            0 <= i <= env_vars@.len(),
            forall|j: int| 0 <= j < i ==> !#[trigger] env_input_bad(env_vars@, j),
        decreases env_vars@.len() - i,
    {
        let key = env_vars[i].key.as_str();
        if !valid_env_var_key(key) {
            assert(env_input_bad(env_vars@, i as int));
            return Err(ModelError::InvalidEnvVar(env_vars[i].key.clone()));
        }
        let mut j: usize = 0;
        while j < i
            invariant
                0 <= j <= i,
                i < env_vars@.len(),
                key@ == env_vars@[i as int].key@,
                forall|l: int| 0 <= l < i ==> !#[trigger] env_input_bad(env_vars@, l),
                forall|l: int| 0 <= l < j ==> env_vars@[l].key@ != env_vars@[i as int].key@,
            decreases i - j,
        {
            if same_text(env_vars[j].key.as_str(), key) {
                assert(env_input_bad(env_vars@, i as int));
                return Err(ModelError::InvalidEnvVar(env_vars[i].key.clone()));
            }
            j = j + 1;
        }
        assert(!env_input_bad(env_vars@, i as int));
        i = i + 1;
    }
    Ok(())
}

/// A slug: 1 to 63 characters of `[a-z0-9-]`, not starting or ending with
/// `-`.
pub open spec fn valid_slug_spec(name: Seq<char>) -> bool {
    &&& name.len() > 0
    &&& name.len() <= 63
    &&& name[0] != '-'
    &&& name[name.len() - 1] != '-'
    &&& forall|i: int|
        0 <= i < name.len() ==> (('a' <= #[trigger] name[i] && name[i] <= 'z') || is_ascii_digit_spec(
            name[i],
        ) || name[i] == '-')
}

/// Slugs double as directory names and `<name>.<base_domain>` subdomain
/// labels, so they're restricted to what's safe in both places: at most 63
/// characters (bytes and characters agree, since every accepted character
/// is ASCII).
pub fn validate_slug(name: &str) -> (r: ModelResult<()>)
    ensures
        r is Ok <==> valid_slug_spec(name@),
        r matches Err(e) ==> e matches ModelError::InvalidName(s) && s@ == name@,
{
    let n = chars_of(name);
    let mut valid = n.len() > 0 && n.len() <= 63 && n[0] != '-' && n[n.len() - 1] != '-';
    let mut i: usize = 0;
    while i < n.len()
        invariant
            0 <= i <= n@.len(),
            valid ==> forall|j: int|
                0 <= j < i ==> (('a' <= #[trigger] n@[j] && n@[j] <= 'z') || is_ascii_digit_spec(
                    n@[j],
                ) || n@[j] == '-'),
            valid ==> (n@.len() > 0 && n@.len() <= 63 && n@[0] != '-' && n@[n@.len() - 1] != '-'),
            !valid ==> !valid_slug_spec(n@),
        decreases n@.len() - i,
    {
        let c = n[i];
        if !(('a' <= c && c <= 'z') || ('0' <= c && c <= '9') || c == '-') {
            valid = false;
        }
        i = i + 1;
    }
    if valid {
        Ok(())
    } else {
        Err(ModelError::InvalidName(name.to_owned()))
    }
}

} // verus!
