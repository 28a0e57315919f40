//! The steps of an app's life the platform drives: creating an app,
//! running a git deployment phase by phase, activating a run-mode
//! deployment without ever leaving nothing serving, and reconciling
//! deployments a restart interrupted. Each function decides; the caller
//! performs the step and reports back.

use vstd::prelude::*;

use crate::containers::{container_name, install_container_name};
use crate::db::DeploymentRow;
use crate::error::{AppError, AppResult};
use crate::models::{
    repo_url_allowed, validate_build_config, validate_env_var_inputs, validate_repo_url,
    validate_run_config, validate_slug, valid_slug_spec, AppSource, GitSource, Deployment, DeploymentStatus,
    EnvVarInput, GitDeployMode, env_input_bad, run_config_of, App,
};
use crate::text::{is_blank, same_text};

verus! {

// ---------------------------------------------------------------------
// Creating an app
// ---------------------------------------------------------------------

/// The checks a new app passes, in order: its name is a slug, its
/// variables are well-formed and distinct, and a git source has an
/// accepted repo URL and a valid build or run config for its mode.
pub open spec fn app_input_ok(name: Seq<char>, source: AppSource, env_vars: Seq<EnvVarInput>) -> bool {
    &&& valid_slug_spec(name)
    &&& forall|i: int| 0 <= i < env_vars.len() ==> !#[trigger] env_input_bad(env_vars, i)
    &&& match source {
        AppSource::Upload => true,
        AppSource::Git(g) => {
            &&& repo_url_allowed(g.repo_url@)
            &&& match g.mode {
                GitDeployMode::Run(run) => run.container_port != 0 && !is_blank(run.start_command@),
                GitDeployMode::Build(build) => !is_blank(build.command@) && !is_blank(
                    build.output_dir@,
                ),
                GitDeployMode::Static { .. } => true,
            }
        },
    }
}

/// The name is a slug and the variables are well-formed and distinct.
pub open spec fn names_and_vars_ok(name: Seq<char>, env_vars: Seq<EnvVarInput>) -> bool {
    &&& valid_slug_spec(name)
    &&& forall|i: int| 0 <= i < env_vars.len() ==> !#[trigger] env_input_bad(env_vars, i)
}

/// The git source of a git-sourced app.
pub open spec fn git_of(source: AppSource) -> GitSource
    recommends
        source is Git,
{
    match source {
        AppSource::Git(g) => g,
        AppSource::Upload => arbitrary(),
    }
}

/// Validates a new app's name, variables and source before anything is
/// written, reporting the first failing check as the platform error.
pub fn validate_new_app(name: &str, source: &AppSource, env_vars: &[EnvVarInput]) -> (r: AppResult<()>)
    ensures
        r is Ok <==> app_input_ok(name@, *source, env_vars@),
        !valid_slug_spec(name@) ==> (r matches Err(AppError::InvalidName(m)) && m@ == name@),
        valid_slug_spec(name@) && !(forall|i: int|
            0 <= i < env_vars@.len() ==> !#[trigger] env_input_bad(env_vars@, i)) ==> (r matches Err(
            AppError::InvalidEnvVar(k),
        ) && exists|i: int|
            0 <= i < env_vars@.len() && #[trigger] env_input_bad(env_vars@, i) && (forall|j: int|
                0 <= j < i ==> !env_input_bad(env_vars@, j)) && k@ == env_vars@[i].key@),
        names_and_vars_ok(name@, env_vars@) && *source is Git && !repo_url_allowed(
            git_of(*source).repo_url@,
        ) ==> (r matches Err(AppError::InvalidRepoUrl(m)) && m@ == git_of(*source).repo_url@),
        names_and_vars_ok(name@, env_vars@) && *source is Git && repo_url_allowed(
            git_of(*source).repo_url@,
        ) && git_of(*source).mode is Run ==> ({
            let run = git_of(*source).mode->Run_0;
            &&& run.container_port == 0 ==> (r matches Err(AppError::InvalidRunConfig(m)) && m@
                == "container port must be 1-65535"@)
            &&& run.container_port != 0 && is_blank(run.start_command@) ==> (r matches Err(
                AppError::InvalidRunConfig(m),
            ) && m@ == "start command is required in run mode"@)
        }),
        names_and_vars_ok(name@, env_vars@) && *source is Git && repo_url_allowed(
            git_of(*source).repo_url@,
        ) && git_of(*source).mode is Build ==> ({
            let build = git_of(*source).mode->Build_0;
            &&& is_blank(build.command@) ==> (r matches Err(AppError::InvalidBuildConfig(m)) && m@
                == "build command is required"@)
            &&& !is_blank(build.command@) && is_blank(build.output_dir@) ==> (r matches Err(
                AppError::InvalidBuildConfig(m),
            ) && m@ == "output dir is required"@)
        }),
{
    match validate_slug(name) {
        Ok(()) => {},
        Err(e) => return Err(AppError::from_model(e)),
    }
    match validate_env_var_inputs(env_vars) {
        Ok(()) => {},
        Err(e) => return Err(AppError::from_model(e)),
    }
    match source {
        AppSource::Upload => Ok(()),
        AppSource::Git(git_source) => {
            match validate_repo_url(git_source.repo_url.as_str()) {
                Ok(()) => {},
                Err(e) => return Err(AppError::from_model(e)),
            }
            match &git_source.mode {
                GitDeployMode::Run(run) => match validate_run_config(run) {
                    Ok(()) => Ok(()),
                    Err(e) => Err(AppError::from_model(e)),
                },
                GitDeployMode::Build(build) => match validate_build_config(build) {
                    Ok(()) => Ok(()),
                    Err(e) => Err(AppError::from_model(e)),
                },
                GitDeployMode::Static { .. } => Ok(()),
            }
        },
    }
}

// ---------------------------------------------------------------------
// A git deployment, phase by phase
// ---------------------------------------------------------------------

/// The phases of a git deployment. Status stays `Pending` through all of
/// them (only flipping to `Ready` at the very end) so install/build
/// command logs stay attached to the deployment for their whole run.
#[derive(Clone, Copy, Debug, PartialEq, Eq, Structural)]
pub enum GitDeployStep {
    /// Shallow-clone the branch into a staging directory.
    Clone,
    /// Run the build command (build mode only).
    Build,
    /// Move the content root into place and record git/build info.
    Finish,
    /// Start containers (run mode) and make the deployment active.
    Activate,
    /// Flip the status to `Ready`.
    MarkReady,
}

/// What follows a phase.
#[derive(Clone, Copy, Debug, PartialEq, Eq, Structural)]
pub enum GitDeployNext {
    /// Run this phase next.
    Run(GitDeployStep),
    /// The deployment is live and ready.
    Done,
    /// The deployment failed: record it as failed, removing the staging
    /// directory first when it may still exist.
    Abort { remove_staging: bool },
}

/// The phase after `step`, given whether it succeeded.
pub open spec fn next_git_step_spec(is_build: bool, step: GitDeployStep, succeeded: bool) -> GitDeployNext {
    if !succeeded {
        GitDeployNext::Abort {
            remove_staging: step == GitDeployStep::Clone || step == GitDeployStep::Build || step
                == GitDeployStep::Finish,
        }
    } else {
        match step {
            GitDeployStep::Clone => if is_build {
                GitDeployNext::Run(GitDeployStep::Build)
            } else {
                GitDeployNext::Run(GitDeployStep::Finish)
            },
            GitDeployStep::Build => GitDeployNext::Run(GitDeployStep::Finish),
            GitDeployStep::Finish => GitDeployNext::Run(GitDeployStep::Activate),
            GitDeployStep::Activate => GitDeployNext::Run(GitDeployStep::MarkReady),
            GitDeployStep::MarkReady => GitDeployNext::Done,
        }
    }
}

/// Decides what follows a phase of a git deployment.
pub fn next_git_step(is_build: bool, step: GitDeployStep, succeeded: bool) -> (r: GitDeployNext)
    ensures
        r == next_git_step_spec(is_build, step, succeeded),
        !succeeded ==> r == (GitDeployNext::Abort {
            remove_staging: step == GitDeployStep::Clone || step == GitDeployStep::Build || step
                == GitDeployStep::Finish,
        }),
        succeeded ==> r !is Abort,
{
    if !succeeded {
        let remove = match step {
            GitDeployStep::Clone | GitDeployStep::Build | GitDeployStep::Finish => true,
            GitDeployStep::Activate | GitDeployStep::MarkReady => false,
        };
        return GitDeployNext::Abort { remove_staging: remove };
    }
    match step {
        GitDeployStep::Clone => if is_build {
            GitDeployNext::Run(GitDeployStep::Build)
        } else {
            GitDeployNext::Run(GitDeployStep::Finish)
        },
        GitDeployStep::Build => GitDeployNext::Run(GitDeployStep::Finish),
        GitDeployStep::Finish => GitDeployNext::Run(GitDeployStep::Activate),
        GitDeployStep::Activate => GitDeployNext::Run(GitDeployStep::MarkReady),
        GitDeployStep::MarkReady => GitDeployNext::Done,
    }
}

/// Where a git deployment ends when its phases succeed as `outcomes` says
/// (one entry per phase run, in order), starting from `step`.
pub open spec fn run_git_steps(is_build: bool, step: GitDeployStep, outcomes: Seq<bool>) -> GitDeployNext
    decreases outcomes.len(),
{
    if outcomes.len() == 0 {
        GitDeployNext::Run(step)
    } else {
        match next_git_step_spec(is_build, step, outcomes[0]) {
            GitDeployNext::Run(next) => run_git_steps(is_build, next, outcomes.drop_first()),
            other => other,
        }
    }
}

/// A deployment is marked ready only right after it was activated, and
/// builds run only in build mode. When every phase succeeds, a git
/// deployment is done after exactly five phases in build mode and four
/// otherwise; a failing phase ends it there.
pub proof fn lemma_git_deploy_phases(is_build: bool, step: GitDeployStep, succeeded: bool)
    ensures
        next_git_step_spec(is_build, step, succeeded) == GitDeployNext::Run(GitDeployStep::MarkReady)
            ==> step == GitDeployStep::Activate && succeeded,
        next_git_step_spec(is_build, step, succeeded) == GitDeployNext::Run(GitDeployStep::Build)
            ==> is_build,
        next_git_step_spec(is_build, step, succeeded) == GitDeployNext::Done ==> step
            == GitDeployStep::MarkReady && succeeded,
        !succeeded ==> next_git_step_spec(is_build, step, succeeded) is Abort,
        run_git_steps(true, GitDeployStep::Clone, seq![true, true, true, true, true])
            == GitDeployNext::Done,
        run_git_steps(false, GitDeployStep::Clone, seq![true, true, true, true])
            == GitDeployNext::Done,
{
    reveal_with_fuel(run_git_steps, 6);
    assert(seq![true, true, true, true, true].drop_first() =~= seq![true, true, true, true]);
    assert(seq![true, true, true, true].drop_first() =~= seq![true, true, true]);
    assert(seq![true, true, true].drop_first() =~= seq![true, true]);
    assert(seq![true, true].drop_first() =~= seq![true]);
    assert(seq![true].drop_first() =~= Seq::<bool>::empty());
}

/// How many phases a git deployment still runs from `step` on when each
/// succeeds, `step` included.
pub open spec fn phases_left(is_build: bool, step: GitDeployStep) -> nat {
    match step {
        GitDeployStep::Clone => if is_build {
            5
        } else {
            4
        },
        GitDeployStep::Build => 4,
        GitDeployStep::Finish => 3,
        GitDeployStep::Activate => 2,
        GitDeployStep::MarkReady => 1,
    }
}

/// The deployment is marked `Ready` only as the very last phase: the
/// `MarkReady` phase is reached only after every earlier phase (clone,
/// build in build mode, file placement, activation) succeeded, and a run
/// is done only once all of them and `MarkReady` succeeded (it ends there,
/// so outcomes past that are never looked at). Until then the
/// status stays `Pending`; a failing phase aborts the deployment.
pub proof fn lemma_ready_only_after_every_phase(is_build: bool, step: GitDeployStep, outcomes: Seq<bool>)
    ensures
        run_git_steps(is_build, step, outcomes) == GitDeployNext::Run(GitDeployStep::MarkReady) ==> (
        forall|i: int| 0 <= i < outcomes.len() ==> #[trigger] outcomes[i])
            && outcomes.len() + 1 == phases_left(is_build, step),
        run_git_steps(is_build, step, outcomes) == GitDeployNext::Done ==> outcomes.len()
            >= phases_left(is_build, step) && (forall|i: int|
            0 <= i < phases_left(is_build, step) ==> #[trigger] outcomes[i]),
        run_git_steps(is_build, step, outcomes) is Abort ==> exists|i: int|
            0 <= i < outcomes.len() && !#[trigger] outcomes[i],
    decreases outcomes.len(),
{
    if outcomes.len() > 0 {
        let rest = outcomes.drop_first();
        match next_git_step_spec(is_build, step, outcomes[0]) {
            GitDeployNext::Run(next) => {
                lemma_ready_only_after_every_phase(is_build, next, rest);
                assert forall|i: int| 1 <= i < outcomes.len() implies outcomes[i] == rest[i - 1] by {}
                if run_git_steps(is_build, step, outcomes) is Abort {
                    let j = choose|j: int| 0 <= j < rest.len() && !#[trigger] rest[j];
                    assert(!outcomes[j + 1]);
                }
            },
            _ => {
                if run_git_steps(is_build, step, outcomes) is Abort {
                    assert(!outcomes[0]);
                }
            },
        }
    }
}

/// Whether the deployment's files are still in the staging directory when
/// `step` runs: they are until `Finish` has moved them into place.
pub open spec fn files_still_staged(step: GitDeployStep) -> bool {
    step == GitDeployStep::Clone || step == GitDeployStep::Build || step == GitDeployStep::Finish
}

/// A failing phase aborts the deployment, removing the staging directory
/// exactly when the files may still be in it: a failed clone (a partial
/// checkout), build or file placement removes it; a failed activation or
/// status update, after the files were moved into place, does not. A
/// succeeding phase never aborts.
pub proof fn lemma_failed_phase_cleans_staging(is_build: bool, step: GitDeployStep)
    ensures
        next_git_step_spec(is_build, step, false) == (GitDeployNext::Abort {
            remove_staging: files_still_staged(step),
        }),
        next_git_step_spec(is_build, GitDeployStep::Clone, false) == (GitDeployNext::Abort {
            remove_staging: true,
        }),
        next_git_step_spec(is_build, GitDeployStep::Activate, false) == (GitDeployNext::Abort {
            remove_staging: false,
        }),
        next_git_step_spec(is_build, step, true) !is Abort,
{
}

/// How the clone phase ended.
#[derive(Debug, PartialEq, Eq)]
pub enum CloneOutcome {
    /// Cloned: the checkout directory and the commit checked out.
    Cloned { checkout_dir: String, commit_sha: String },
    /// The clone itself failed.
    Failed(AppError),
    /// The task running the clone died, with its message.
    TaskFailed(String),
    /// The clone did not finish within the fetch timeout.
    TimedOut,
}

/// The checkout and commit of a clone, or the error it fails the
/// deployment with.
pub fn clone_result(outcome: CloneOutcome) -> (r: AppResult<(String, String)>)
    ensures
        outcome matches CloneOutcome::Cloned { checkout_dir, commit_sha } ==> (r matches Ok(p)
            && p.0 == checkout_dir && p.1 == commit_sha),
        outcome matches CloneOutcome::Failed(e) ==> r == Err::<(String, String), AppError>(e),
        outcome matches CloneOutcome::TaskFailed(m) ==> r == Err::<(String, String), AppError>(
            AppError::Io(m),
        ),
        outcome is TimedOut ==> (r matches Err(AppError::Git(m)) && m@
            == "timed out waiting for git fetch"@),
{
    match outcome {
        CloneOutcome::Cloned { checkout_dir, commit_sha } => Ok((checkout_dir, commit_sha)),
        CloneOutcome::Failed(e) => Err(e),
        CloneOutcome::TaskFailed(m) => Err(AppError::Io(m)),
        CloneOutcome::TimedOut => Err(AppError::Git("timed out waiting for git fetch".to_owned())),
    }
}

/// Where the content a git deployment serves comes from.
#[derive(Debug, PartialEq, Eq)]
pub enum ContentRoot {
    /// The whole checkout (run mode).
    WholeCheckout,
    /// A directory inside the checkout: `publish_dir` in static mode (the
    /// root when unset), the build's output dir in build mode.
    Subdir(Option<String>),
}

/// The servable content root of each mode.
pub fn content_root(mode: &GitDeployMode) -> (r: ContentRoot)
    ensures
        mode is Run ==> r is WholeCheckout,
        mode matches GitDeployMode::Static { publish_dir } ==> (r matches ContentRoot::Subdir(d)
            && d == publish_dir),
        mode matches GitDeployMode::Build(b) ==> (r matches ContentRoot::Subdir(Some(d)) && d
            == b.output_dir),
{
    match mode {
        GitDeployMode::Run(_) => ContentRoot::WholeCheckout,
        GitDeployMode::Static { publish_dir } => ContentRoot::Subdir(publish_dir.clone()),
        GitDeployMode::Build(build) => ContentRoot::Subdir(Some(build.output_dir.clone())),
    }
}


/// The container a new pending git deployment will run in: only run mode
/// has one, named deterministically from the app and the deployment.
pub fn pending_container_name(mode: &GitDeployMode, app_name: &str, deployment_id: &str) -> (r:
    Option<String>)
    ensures
        mode is Run ==> (r matches Some(c) && c@ == "oxde-"@ + app_name@ + "-"@ + deployment_id@),
        !(mode is Run) ==> r is None,
{
    match mode {
        GitDeployMode::Run(_) => Some(container_name(app_name, deployment_id)),
        _ => None,
    }
}

/// A git deployment can only be started for a git-sourced app with no
/// deployment already in progress.
pub fn check_git_deployable(app_name: &str, source: &AppSource, any_pending: bool) -> (r: AppResult<()>)
    ensures
        source is Upload ==> (r matches Err(AppError::NotGitSourced(m)) && m@ == app_name@),
        source is Git && any_pending ==> (r matches Err(AppError::DeploymentInProgress(m)) && m@
            == app_name@),
        r is Ok <==> source is Git && !any_pending,
{
    match source {
        AppSource::Upload => Err(AppError::NotGitSourced(app_name.to_owned())),
        AppSource::Git(_) => {
            if any_pending {
                Err(AppError::DeploymentInProgress(app_name.to_owned()))
            } else {
                Ok(())
            }
        },
    }
}

/// The container to bring back after a restart: a run-mode app's active
/// deployment's container, if it has one. Starting is idempotent, so this
/// is safe to act on unconditionally.
pub fn container_to_reconcile(app: &App, active_deployment: Option<&Deployment>) -> (r: Option<String>)
    ensures
        r is Some <==> (run_config_of(app.source) is Some && active_deployment is Some
            && active_deployment->0.container_name is Some),
        r is Some ==> r == active_deployment->0.container_name,
{
    match app.run_config() {
        None => None,
        Some(_) => match active_deployment {
            None => None,
            Some(d) => d.container_name.clone(),
        },
    }
}

// ---------------------------------------------------------------------
// Activating a run-mode deployment
// ---------------------------------------------------------------------

/// The steps of activating a deployment, in order.
#[derive(Clone, Copy, Debug, PartialEq, Eq, Structural)]
pub enum ActivateStep {
    /// Start the new deployment's container (run mode only) and its run
    /// log pump.
    StartNew,
    /// Stop and remove the previously active deployment's container.
    StopPrevious,
    /// Record the deployment as the app's active one.
    SetActive,
}

/// What follows a step of activating.
#[derive(Clone, Copy, Debug, PartialEq, Eq, Structural)]
pub enum ActivateNext {
    Run(ActivateStep),
    /// The deployment is active.
    Done,
    /// Activation failed with the step's error.
    Fail,
}

/// The first step of activating: starting the container in run mode,
/// else recording the deployment as active.
pub open spec fn first_activate_spec(is_run: bool) -> ActivateStep {
    if is_run {
        ActivateStep::StartNew
    } else {
        ActivateStep::SetActive
    }
}

/// The step after `step`, given whether there is a previous container to
/// stop (`previous_container_to_stop`) and whether `step` succeeded. A
/// failure to stop the previous container is only reported, never fatal.
pub open spec fn next_activate_spec(has_previous: bool, step: ActivateStep, succeeded: bool) -> ActivateNext {
    match step {
        ActivateStep::StartNew => if !succeeded {
            ActivateNext::Fail
        } else if has_previous {
            ActivateNext::Run(ActivateStep::StopPrevious)
        } else {
            ActivateNext::Run(ActivateStep::SetActive)
        },
        ActivateStep::StopPrevious => ActivateNext::Run(ActivateStep::SetActive),
        ActivateStep::SetActive => if succeeded {
            ActivateNext::Done
        } else {
            ActivateNext::Fail
        },
    }
}

/// Where activating a deployment starts.
pub fn first_activate_step(is_run: bool) -> (r: ActivateStep)
    ensures
        r == first_activate_spec(is_run),
{
    if is_run {
        ActivateStep::StartNew
    } else {
        ActivateStep::SetActive
    }
}

/// Decides what follows a step of activating a deployment.
pub fn next_activate_step(has_previous: bool, step: ActivateStep, succeeded: bool) -> (r: ActivateNext)
    ensures
        r == next_activate_spec(has_previous, step, succeeded),
        step == ActivateStep::SetActive && succeeded ==> r == ActivateNext::Done,
        step == ActivateStep::SetActive && !succeeded ==> r == ActivateNext::Fail,
        step == ActivateStep::StartNew && !succeeded ==> r == ActivateNext::Fail,
        r == ActivateNext::Done ==> step == ActivateStep::SetActive && succeeded,
{
    match step {
        ActivateStep::StartNew => if !succeeded {
            ActivateNext::Fail
        } else if has_previous {
            ActivateNext::Run(ActivateStep::StopPrevious)
        } else {
            ActivateNext::Run(ActivateStep::SetActive)
        },
        ActivateStep::StopPrevious => ActivateNext::Run(ActivateStep::SetActive),
        ActivateStep::SetActive => if succeeded {
            ActivateNext::Done
        } else {
            ActivateNext::Fail
        },
    }
}

/// A bad redeploy keeps the old deployment serving: the previous container
/// is stopped only after the new one started, and a new container that
/// fails to start ends the activation before anything else is touched.
pub proof fn lemma_old_deployment_serves_until_new_one_runs(
    has_previous: bool,
    step: ActivateStep,
    succeeded: bool,
)
    ensures
        next_activate_spec(has_previous, step, succeeded) == ActivateNext::Run(
            ActivateStep::StopPrevious,
        ) ==> step == ActivateStep::StartNew && succeeded && has_previous,
        next_activate_spec(has_previous, ActivateStep::StartNew, false) == ActivateNext::Fail,
        next_activate_spec(has_previous, step, succeeded) == ActivateNext::Done ==> step
            == ActivateStep::SetActive && succeeded,
{
}

/// Recording the deployment as active completes activation, whether or
/// not an earlier container was stopped first (a first deployment, or a
/// static or upload app, has none); if the record fails, so does the
/// activation; and nothing else completes it.
pub proof fn lemma_set_active_completes_activation(has_previous: bool, step: ActivateStep, succeeded: bool)
    ensures
        forall|h: bool| #[trigger] next_activate_spec(h, ActivateStep::SetActive, true)
            == ActivateNext::Done,
        forall|h: bool| #[trigger] next_activate_spec(h, ActivateStep::SetActive, false)
            == ActivateNext::Fail,
        next_activate_spec(has_previous, step, succeeded) == ActivateNext::Done ==> step
            == ActivateStep::SetActive && succeeded,
{
}

/// The container to stop once a new run-mode deployment is up: the
/// previously active deployment's, if there was another one with a
/// container. Decided only after the new container started - so a bad
/// redeploy degrades to "the old deployment keeps serving," never to
/// "nothing is serving."
pub fn previous_container_to_stop(
    previous_active_id: Option<&str>,
    deployment_id: &str,
    previous_container: Option<String>,
) -> (r: Option<String>)
    ensures
        r is Some <==> (previous_active_id is Some && previous_active_id->0@ != deployment_id@
            && previous_container is Some),
        r matches Some(c) ==> previous_container == Some(c),
{
    match previous_active_id {
        Some(previous) => {
            if same_text(previous, deployment_id) {
                None
            } else {
                previous_container
            }
        },
        None => None,
    }
}

/// A run-mode deployment has a container name to start.
pub fn run_container_to_start(container_name: Option<String>) -> (r: AppResult<String>)
    ensures
        container_name matches Some(c) ==> r == Ok::<String, AppError>(c),
        container_name is None ==> (r matches Err(AppError::ContainerStartFailed(m)) && m@
            == "run-mode deployment has no container_name"@),
{
    match container_name {
        Some(c) => Ok(c),
        None => Err(AppError::ContainerStartFailed("run-mode deployment has no container_name".to_owned())),
    }
}

// ---------------------------------------------------------------------
// Reconciliation after a restart
// ---------------------------------------------------------------------

/// The failure recorded on a deployment a restart interrupted.
pub const INTERRUPTED: &'static str = "interrupted by server restart";

/// A deployment left pending by a restart: which one, and the install
/// container to force-remove, if it had a container.
#[derive(Debug, PartialEq, Eq)]
pub struct Interrupted {
    pub deployment_id: String,
    pub install_container: Option<String>,
}

/// The deployments of `s` still pending, in order.
pub open spec fn pending_of(s: Seq<Deployment>) -> Seq<Deployment>
    decreases s.len(),
{
    if s.len() == 0 {
        s
    } else {
        let prev = pending_of(s.drop_last());
        if s.last().status is Pending {
            prev.push(s.last())
        } else {
            prev
        }
    }
}

/// The deployments a restart interrupted, in order: every pending one
/// (`mark_interrupted_deployments` marks them failed), each with its install
/// container when it has a run container.
pub fn interrupted_deployments(deployments: &[Deployment]) -> (r: Vec<Interrupted>)
    ensures
        r@.len() == pending_of(deployments@).len(),
        forall|k: int| 0 <= k < r@.len() ==> {
            let d = #[trigger] pending_of(deployments@)[k];
            &&& r@[k].deployment_id@ == d.id@
            &&& match d.container_name {
                Some(c) => r@[k].install_container matches Some(n) && n@ == c@ + "-install"@,
                None => r@[k].install_container is None,
            }
        },
{
    let mut out: Vec<Interrupted> = Vec::new();
    let mut i: usize = 0;
    assert(deployments@.take(0) =~= Seq::<Deployment>::empty());
    while i < deployments.len()
        invariant
            0 <= i <= deployments@.len(),
            out@.len() == pending_of(deployments@.take(i as int)).len(),
            forall|k: int| 0 <= k < out@.len() ==> {
                let d = #[trigger] pending_of(deployments@.take(i as int))[k];
                &&& out@[k].deployment_id@ == d.id@
                &&& match d.container_name {
                    Some(c) => out@[k].install_container matches Some(n) && n@ == c@ + "-install"@,
                    None => out@[k].install_container is None,
                }
            },
        decreases deployments@.len() - i,
    {
        let d = &deployments[i];
        let ghost prefix = deployments@.take(i as int);
        let ghost next = deployments@.take(i + 1);
        assert(next.drop_last() =~= prefix);
        assert(next.last() == deployments@[i as int]);
        let is_pending = match d.status {
            DeploymentStatus::Pending => true,
            _ => false,
        };
        if is_pending {
            let install = match &d.container_name {
                Some(c) => Some(install_container_name(c.as_str())),
                None => None,
            };
            out.push(Interrupted { deployment_id: d.id.clone(), install_container: install });
        }
        i = i + 1;
    }
    assert(deployments@.take(deployments@.len() as int) =~= deployments@);
    out
}

/// `after` is `before` marked interrupted: a pending deployment becomes
/// failed with `INTERRUPTED`, everything else about it unchanged; any
/// other deployment is left exactly as it was.
pub open spec fn marked_interrupted(before: Deployment, after: Deployment) -> bool {
    if before.status is Pending {
        &&& after.status matches DeploymentStatus::Failed { error } && error@ == INTERRUPTED@
        &&& after.id == before.id
        &&& after.app == before.app
        &&& after.created_at == before.created_at
        &&& after.original_filename == before.original_filename
        &&& after.upload_size_bytes == before.upload_size_bytes
        &&& after.git == before.git
        &&& after.build_info == before.build_info
        &&& after.container_name == before.container_name
    } else {
        after == before
    }
}

/// Marks every deployment a restart interrupted - every pending one - as
/// failed with `INTERRUPTED`, leaving the others as they are.
pub fn mark_interrupted_deployments(deployments: Vec<Deployment>) -> (r: Vec<Deployment>)
    ensures
        r@.len() == deployments@.len(),
        forall|i: int| 0 <= i < r@.len() ==> marked_interrupted(deployments@[i], #[trigger] r@[i]),
{
    let ghost before = deployments@;
    assert(before.len() == deployments.len());
    let mut rest = deployments;
    let mut out: Vec<Deployment> = Vec::new();
    let mut i: usize = 0;
    while rest.len() > 0
        invariant
            0 <= i <= before.len(),
            rest@ == before.skip(i as int),
            rest@.len() == before.len() - i,
            before.len() <= usize::MAX,
            out@.len() == i,
            forall|k: int| 0 <= k < i ==> marked_interrupted(before[k], #[trigger] out@[k]),
        decreases rest@.len(),
    {
        let d = rest.remove(0);
        assert(d == before[i as int]);
        assert(rest@ =~= before.skip(i + 1));
        let marked = match d.status {
            DeploymentStatus::Pending => Deployment {
                id: d.id,
                app: d.app,
                created_at: d.created_at,
                original_filename: d.original_filename,
                upload_size_bytes: d.upload_size_bytes,
                git: d.git,
                build_info: d.build_info,
                container_name: d.container_name,
                status: DeploymentStatus::Failed { error: INTERRUPTED.to_owned() },
            },
            other => Deployment { status: other, ..d },
        };
        out.push(marked);
        i = i + 1;
    }
    assert(before.skip(i as int).len() == 0);
    out
}

/// Marking interrupted deployments is idempotent: after one run none is
/// pending, so a second run (after another restart) leaves every
/// deployment exactly as the first run left it.
pub proof fn lemma_marking_again_changes_nothing(
    original: Seq<Deployment>,
    once: Seq<Deployment>,
    twice: Seq<Deployment>,
)
    requires
        once.len() == original.len(),
        forall|i: int| 0 <= i < once.len() ==> marked_interrupted(original[i], #[trigger] once[i]),
        twice.len() == once.len(),
        forall|i: int| 0 <= i < twice.len() ==> marked_interrupted(once[i], #[trigger] twice[i]),
    ensures
        forall|i: int| 0 <= i < once.len() ==> (#[trigger] once[i]).status !is Pending,
        twice == once,
{
    assert forall|i: int| 0 <= i < once.len() implies (#[trigger] once[i]).status !is Pending by {
        assert(marked_interrupted(original[i], once[i]));
    }
    assert forall|i: int| 0 <= i < once.len() implies twice[i] == once[i] by {
        assert(marked_interrupted(once[i], twice[i]));
        assert(once[i].status !is Pending);
    }
    assert(twice =~= once);
}

/// The row a new git deployment is recorded with before its first phase:
/// pending, nothing uploaded, no git or build info yet, and the container
/// name of a run-mode deployment.
pub fn pending_git_deployment_row(
    mode: &GitDeployMode,
    app_name: &str,
    deployment_id: &str,
    created_at: i64,
) -> (r: DeploymentRow)
    ensures
        r.id@ == deployment_id@,
        r.created_at == created_at,
        r.original_filename is None,
        r.upload_size_bytes == 0,
        r.git_info is None,
        r.build_info is None,
        r.status@ == "pending"@,
        r.failure_error is None,
        mode is Run ==> (r.container_name matches Some(c) && c@ == "oxde-"@ + app_name@ + "-"@
            + deployment_id@),
        !(mode is Run) ==> r.container_name is None,
{
    DeploymentRow {
        id: deployment_id.to_owned(),
        created_at,
        original_filename: None,
        upload_size_bytes: 0,
        git_info: None,
        build_info: None,
        container_name: pending_container_name(mode, app_name, deployment_id),
        status: "pending".to_owned(),
        failure_error: None,
    }
}

/// Creating a git deployment records it as pending, so a second request
/// while it runs is refused: once the new row's status is among the app's
/// deployment statuses, some status is pending, and `check_git_deployable`
/// answers `DeploymentInProgress` whenever one is.
pub proof fn lemma_second_git_deployment_refused(statuses: Seq<Seq<char>>, new_status: Seq<char>)
    requires
        new_status == "pending"@,
    ensures
        exists|i: int|
            0 <= i < statuses.push(new_status).len() && #[trigger] statuses.push(new_status)[i]
                == "pending"@,
{
    assert(statuses.push(new_status)[statuses.len() as int] == "pending"@);
}

// ---------------------------------------------------------------------
// The startup sweep of orphaned directories
// ---------------------------------------------------------------------

/// Name for the canonical text (hyphenated, lowercase) of the UUID `text`
/// parses as, `None` when it is not a UUID.
pub uninterp spec fn spec_uuid_canonical(text: Seq<char>) -> Option<Seq<char>>;

/// Calls `uuid::Uuid::parse_str` (simple, hyphenated, URN and braced forms)
/// and, when it parses, renders the id with `to_string`.
#[verifier::external_body]
fn uuid_canonical(text: &str) -> (r: Option<String>)
    ensures
        r is Some <==> spec_uuid_canonical(text@) is Some,
        r matches Some(c) ==> spec_uuid_canonical(text@) == Some(c@),
{
    uuid::Uuid::parse_str(text).ok().map(|id| id.to_string())
}

/// What the startup sweep does with a directory it finds.
#[derive(Clone, Copy, Debug, PartialEq, Eq, Structural)]
pub enum SweepAction {
    /// Not named by an id: left alone.
    Skip,
    /// Its id has a row: kept (an app's deployments are swept in turn).
    Keep,
    /// Its id has no row - left by a crash between placing the directory
    /// and committing its row, or the reverse on delete: removed.
    Remove,
}

/// The sweep's action on a directory named `name`, given the ids (in
/// canonical text) that have rows.
pub open spec fn sweep_action_spec(name: Seq<char>, valid_ids: Seq<Seq<char>>) -> SweepAction {
    match spec_uuid_canonical(name) {
        None => SweepAction::Skip,
        Some(id) => if valid_ids.contains(id) {
            SweepAction::Keep
        } else {
            SweepAction::Remove
        },
    }
}

/// For each directory found under `apps/` (or an app's `deployments/`),
/// what the startup sweep does with it, given the ids with rows as their
/// canonical text.
pub fn sweep_plan(dir_names: &[String], valid_ids: &[String]) -> (r: Vec<SweepAction>)
    ensures
        r@.len() == dir_names@.len(),
        forall|i: int|
            0 <= i < r@.len() ==> #[trigger] r@[i] == sweep_action_spec(
                dir_names@[i]@,
                valid_ids@.map_values(|s: String| s@),
            ),
{
    let ghost valid = valid_ids@.map_values(|s: String| s@);
    let mut out: Vec<SweepAction> = Vec::new();
    let mut i: usize = 0;
    while i < dir_names.len()
        invariant
            0 <= i <= dir_names@.len(),
            out@.len() == i,
            valid == valid_ids@.map_values(|s: String| s@),
            forall|k: int| 0 <= k < i ==> #[trigger] out@[k] == sweep_action_spec(dir_names@[k]@, valid),
        decreases dir_names@.len() - i,
    {
        let action = match uuid_canonical(dir_names[i].as_str()) {
            None => SweepAction::Skip,
            Some(id) => {
                let mut found = false;
                let mut j: usize = 0;
                while j < valid_ids.len()
                    invariant
                        0 <= j <= valid_ids@.len(),
                        valid == valid_ids@.map_values(|s: String| s@),
                        found <==> exists|k: int| 0 <= k < j && valid[k] == id@,
                    decreases valid_ids@.len() - j,
                {
                    assert(valid[j as int] == valid_ids@[j as int]@);
                    if same_text(valid_ids[j].as_str(), id.as_str()) {
                        found = true;
                    }
                    proof {
                        if found && !(exists|k: int| 0 <= k < j && valid[k] == id@) {
                            assert(valid[j as int] == id@);
                        }
                    }
                    j = j + 1;
                }
                proof {
                    if found {
                        let k = choose|k: int| 0 <= k < valid_ids@.len() && valid[k] == id@;
                        assert(valid.contains(id@));
                    }
                }
                if found {
                    SweepAction::Keep
                } else {
                    SweepAction::Remove
                }
            },
        };
        out.push(action);
        i = i + 1;
    }
    out
}

/// A new app's name must not be taken: an existing app of that name
/// refuses the creation.
pub fn check_app_name_free(name: &str, existing: bool) -> (r: AppResult<()>)
    ensures
        existing ==> (r matches Err(AppError::AppAlreadyExists(m)) && m@ == name@),
        !existing ==> r is Ok,
{
    if existing {
        Err(AppError::AppAlreadyExists(name.to_owned()))
    } else {
        Ok(())
    }
}

} // verus!
