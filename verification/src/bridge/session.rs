//! Session creation and management for different spawn modes

use std::collections::HashMap;
use std::path::{Path, PathBuf};

use vstd::prelude::*;
use vstd::string::*;

use crate::bridge::types::{AuthConfig, GitInfo, SourceConfig, SpawnMode, WorkSecret};
use crate::text::{concat3, str_eq};

verus! {

#[verifier::external_type_specification]
#[verifier::external_body]
pub struct ExPathBuf(PathBuf);

#[verifier::external_type_specification]
#[verifier::external_body]
pub struct ExPath(Path);

#[verifier::external_type_specification]
#[verifier::external_body]
pub struct ExIoError(std::io::Error);

/// The path that `PathBuf::as_path` borrows from `buf`: the buffer's own contents, so the
/// same buffer always gives the same path.
pub uninterp spec fn buffer_path(buf: &PathBuf) -> &Path;

/// Borrows a `PathBuf` as a `Path` with `PathBuf::as_path`; the result is the one named
/// by `buffer_path`.
#[verifier::external_body]
fn path_of(p: &PathBuf) -> (r: &Path)
    ensures
        r == buffer_path(p),
{
    p.as_path()
}

/// Copies a `PathBuf` with its `Clone`: the copy holds the same path.
#[verifier::external_body]
fn copy_path(p: &PathBuf) -> (r: PathBuf)
    ensures
        buffer_path(&r) == buffer_path(p),
{
    p.clone()
}

/// The path that `Path::join` gives for `dir` and `name`: a function of the two alone.
pub uninterp spec fn joined_path(dir: &PathBuf, name: Seq<char>) -> PathBuf;

/// Adjoins `name` to `dir` with `Path::join`; the result is the one named by `joined_path`.
#[verifier::external_body]
fn join_path(dir: &PathBuf, name: &str) -> (r: PathBuf)
    ensures
        r == joined_path(dir, name@),
{
    dir.join(name)
}

/// Shows an I/O error with its `Display`. Nothing is stated of the text.
#[verifier::external_body]
fn io_error_text(e: &std::io::Error) -> String {
    e.to_string()
}

/// Session creation error
#[derive(Debug)]
pub enum SessionCreateError {
    Io(std::io::Error),
    Git(String),
    InvalidPath(String),
    Session(String),
    Command(String),
}

impl SessionCreateError {
    /// The text under which the error is shown.
    pub fn to_string(&self) -> (r: String)
        ensures
            match self {
                SessionCreateError::Io(_) => exists|t: Seq<char>| r@ == "IO error: "@ + t,
                SessionCreateError::Git(m) => r@ == "Git error: "@ + m@,
                SessionCreateError::InvalidPath(m) => r@ == "Invalid path: "@ + m@,
                SessionCreateError::Session(m) => r@ == "Session error: "@ + m@,
                SessionCreateError::Command(m) => r@ == "Command execution error: "@ + m@,
            },
    {
        match self {
            SessionCreateError::Io(e) => {
                let t = io_error_text(e);
                let r = String::from_str("IO error: ").concat(t.as_str());
                assert(r@ == "IO error: "@ + t@);
                r
            },
            SessionCreateError::Git(m) => String::from_str("Git error: ").concat(m.as_str()),
            SessionCreateError::InvalidPath(m) => String::from_str("Invalid path: ").concat(m.as_str()),
            SessionCreateError::Session(m) => String::from_str("Session error: ").concat(m.as_str()),
            SessionCreateError::Command(m) => String::from_str("Command execution error: ").concat(m.as_str()),
        }
    }
}

/// Session cleanup strategy
#[derive(Debug, Clone, Copy, PartialEq, Eq, Structural)]
pub enum SessionCleanup {
    /// Clean up a git worktree
    Worktree,
    /// Delete a temporary directory
    TempDir,
}

/// Where a new session works.
#[derive(Debug, Clone, Copy, PartialEq, Eq, Structural)]
pub enum WorkDirSource {
    /// The spawner's base directory
    BaseDir,
    /// A fresh worktree of its own
    NewWorktree,
}

/// Where sessions of a spawn mode work and how they are cleaned up: a worktree session
/// gets a fresh worktree that is removed afterwards; the other modes share the base
/// directory and leave it in place.
pub open spec fn mode_layout(mode: SpawnMode) -> (WorkDirSource, Option<SessionCleanup>) {
    match mode {
        SpawnMode::Worktree => (WorkDirSource::NewWorktree, Some(SessionCleanup::Worktree)),
        _ => (WorkDirSource::BaseDir, None),
    }
}

/// The path where a session of `mode` works: the base directory in the modes that share
/// it, else the worktree `remote-session-<unique_id>` adjoined to the temporary directory.
pub open spec fn planned_dir<'a>(mode: SpawnMode, base: &'a PathBuf, temp_dir: &'a PathBuf, unique_id: Seq<char>) -> &'a Path {
    match mode_layout(mode).0 {
        WorkDirSource::BaseDir => buffer_path(base),
        WorkDirSource::NewWorktree => buffer_path(&joined_path(temp_dir, "remote-session-"@ + unique_id)),
    }
}

/// The environment variables a work secret gives, or none.
pub open spec fn secret_env_vars(secret: &WorkSecret) -> Map<String, String> {
    match secret.environment_variables {
        Some(m) => m@,
        None => Map::empty(),
    }
}

/// Session spawner
pub struct SessionSpawner {
    base_dir: PathBuf,
    spawn_mode: SpawnMode,
}

/// A spawned session
pub struct SpawnedSession<S> {
    pub session: S,
    pub work_dir: PathBuf,
    pub mode: SpawnMode,
    cleanup: Option<SessionCleanup>,
    env_vars: HashMap<String, String>,
}

impl SessionSpawner {
    pub closed spec fn spec_base_dir(&self) -> PathBuf {
        self.base_dir
    }

    pub closed spec fn spec_spawn_mode(&self) -> SpawnMode {
        self.spawn_mode
    }

    /// Create a new session spawner
    pub fn new(base_dir: PathBuf, spawn_mode: SpawnMode) -> (r: SessionSpawner)
        ensures
            r.spec_base_dir() == base_dir,
            r.spec_spawn_mode() == spawn_mode,
    {
        SessionSpawner { base_dir, spawn_mode }
    }

    pub fn spawn_mode(&self) -> (r: SpawnMode)
        ensures
            r == self.spec_spawn_mode(),
    {
        self.spawn_mode
    }

    pub fn base_dir(&self) -> (r: &PathBuf)
        ensures
            *r == self.spec_base_dir(),
    {
        &self.base_dir
    }

    /// Where a new session works and how it is cleaned up, by the spawner's mode.
    pub fn layout(&self) -> (r: (WorkDirSource, Option<SessionCleanup>))
        ensures
            r == mode_layout(self.spec_spawn_mode()),
    {
        match self.spawn_mode {
            SpawnMode::SingleSession => (WorkDirSource::BaseDir, None),
            SpawnMode::Worktree => (WorkDirSource::NewWorktree, Some(SessionCleanup::Worktree)),
            SpawnMode::SameDir => (WorkDirSource::BaseDir, None),
        }
    }

    /// The directory of a new session: the base directory in the modes that share it, else
    /// the worktree `remote-session-<unique_id>` in `temp_dir`.
    pub fn session_dir(&self, temp_dir: &PathBuf, unique_id: &str) -> (r: PathBuf)
        ensures
            buffer_path(&r) == planned_dir(self.spec_spawn_mode(), &self.spec_base_dir(), temp_dir, unique_id@),
    {
        let (source, _) = self.layout();
        match source {
            WorkDirSource::BaseDir => copy_path(&self.base_dir),
            WorkDirSource::NewWorktree => {
                let name = worktree_name(unique_id);
                join_path(temp_dir, name.as_str())
            },
        }
    }

    /// The spawned session once its directory is ready: it records the spawner's mode, the
    /// cleanup of that mode, and the environment variables of the work secret.
    pub fn spawned<S>(&self, session: S, work_dir: PathBuf, work_secret: &WorkSecret) -> (r: SpawnedSession<S>)
        ensures
            r.spec_session() == session,
            r.spec_work_dir() == work_dir,
            r.spec_mode() == self.spec_spawn_mode(),
            r.spec_cleanup() == mode_layout(self.spec_spawn_mode()).1,
            r.spec_env_vars()@ == secret_env_vars(work_secret),
    {
        let env_vars = match &work_secret.environment_variables {
            Some(m) => m.clone(),
            None => HashMap::new(),
        };
        let (_, cleanup) = self.layout();
        SpawnedSession { session, work_dir, mode: self.spawn_mode, cleanup, env_vars }
    }
}

impl<S> SpawnedSession<S> {
    pub closed spec fn spec_session(&self) -> S {
        self.session
    }

    pub closed spec fn spec_work_dir(&self) -> PathBuf {
        self.work_dir
    }

    pub closed spec fn spec_mode(&self) -> SpawnMode {
        self.mode
    }

    pub closed spec fn spec_cleanup(&self) -> Option<SessionCleanup> {
        self.cleanup
    }

    pub closed spec fn spec_env_vars(&self) -> HashMap<String, String> {
        self.env_vars
    }

    /// Get the session
    pub fn session(&self) -> (r: &S)
        ensures
            *r == self.spec_session(),
    {
        &self.session
    }

    /// Get the session mutably
    pub fn session_mut(&mut self) -> (r: &mut S)
        ensures
            *r == old(self).spec_session(),
            final(self).spec_session() == *final(r),
            final(self).spec_work_dir() == old(self).spec_work_dir(),
            final(self).spec_mode() == old(self).spec_mode(),
            final(self).spec_cleanup() == old(self).spec_cleanup(),
            final(self).spec_env_vars() == old(self).spec_env_vars(),
    {
        &mut self.session
    }

    /// Get the work directory
    pub fn work_dir(&self) -> (r: &Path)
        ensures
            r == buffer_path(&self.spec_work_dir()),
    {
        path_of(&self.work_dir)
    }

    /// Get the environment variables
    pub fn env_vars(&self) -> (r: &HashMap<String, String>)
        ensures
            *r == self.spec_env_vars(),
    {
        &self.env_vars
    }

    /// How the session is cleaned up, if at all.
    pub fn cleanup_strategy(&self) -> (r: Option<SessionCleanup>)
        ensures
            r == self.spec_cleanup(),
    {
        self.cleanup
    }
}

} // verus!

verus! {

pub open spec fn opt_seq(s: Option<String>) -> Option<Seq<char>> {
    match s {
        Some(x) => Some(x@),
        None => None,
    }
}

/// The git information of the first source that has any.
pub open spec fn first_git_info(sources: Seq<SourceConfig>) -> Option<GitInfo>
    decreases sources.len(),
{
    if sources.len() == 0 {
        None
    } else {
        match sources[0].git_info {
            Some(g) => Some(g),
            None => first_git_info(sources.drop_first()),
        }
    }
}

/// The token of the first source whose git information holds one.
pub open spec fn first_git_token(sources: Seq<SourceConfig>) -> Option<Seq<char>>
    decreases sources.len(),
{
    if sources.len() == 0 {
        None
    } else {
        match sources[0].git_info {
            Some(g) => match g.token {
                Some(t) => Some(t@),
                None => first_git_token(sources.drop_first()),
            },
            None => first_git_token(sources.drop_first()),
        }
    }
}

/// The git information to set a worktree up from.
pub fn git_source(work_secret: &WorkSecret) -> (r: Option<&GitInfo>)
    ensures
        match r {
            Some(g) => first_git_info(work_secret.sources@) == Some(*g),
            None => first_git_info(work_secret.sources@) is None,
        },
{
    let sources = &work_secret.sources;
    let mut i: usize = 0;
    assert(sources@.skip(0) =~= sources@);
    while i < sources.len()
        invariant
            i <= sources@.len(),
            sources@ == work_secret.sources@,
            first_git_info(sources@.skip(i as int)) == first_git_info(sources@),
        decreases sources@.len() - i,
    {
        assert(sources@.skip(i as int).drop_first() =~= sources@.skip(i + 1));
        assert(sources@.skip(i as int)[0] == sources@[i as int]);
        match &sources[i].git_info {
            Some(g) => {
                assert(first_git_info(sources@.skip(i as int)) == Some(*g));
                return Some(g);
            },
            None => {},
        }
        i = i + 1;
    }
    assert(sources@.skip(i as int).len() == 0);
    None
}

/// The git token to configure credentials with.
pub fn git_token(work_secret: &WorkSecret) -> (r: Option<&String>)
    ensures
        match r {
            Some(t) => first_git_token(work_secret.sources@) == Some(t@),
            None => first_git_token(work_secret.sources@) is None,
        },
{
    let sources = &work_secret.sources;
    let mut i: usize = 0;
    assert(sources@.skip(0) =~= sources@);
    while i < sources.len()
        invariant
            i <= sources@.len(),
            sources@ == work_secret.sources@,
            first_git_token(sources@.skip(i as int)) == first_git_token(sources@),
        decreases sources@.len() - i,
    {
        assert(sources@.skip(i as int).drop_first() =~= sources@.skip(i + 1));
        assert(sources@.skip(i as int)[0] == sources@[i as int]);
        match &sources[i].git_info {
            Some(g) => match &g.token {
                Some(t) => {
                    assert(first_git_token(sources@.skip(i as int)) == Some(t@));
                    return Some(t);
                },
                None => {},
            },
            None => {},
        }
        i = i + 1;
    }
    assert(sources@.skip(i as int).len() == 0);
    None
}

/// The credential helper that answers git with the token.
pub open spec fn credential_helper_text(token: Seq<char>) -> Seq<char> {
    "!f() { echo 'username=token'; echo 'password="@ + token + "'; }; f"@
}

/// The credential helper that answers git with the token.
pub fn credential_helper(token: &str) -> (r: String)
    ensures
        r@ == credential_helper_text(token@),
{
    concat3("!f() { echo 'username=token'; echo 'password=", token, "'; }; f")
}

/// A git command of the worktree setup: its arguments, and the name of its failure.
#[derive(Debug)]
pub struct GitStep {
    pub args: Vec<String>,
    pub failure: String,
}

pub struct GitStepView {
    pub args: Seq<Seq<char>>,
    pub failure: Seq<char>,
}

impl View for GitStep {
    type V = GitStepView;

    open spec fn view(&self) -> GitStepView {
        GitStepView { args: Seq::new(self.args@.len(), |i: int| self.args@[i]@), failure: self.failure@ }
    }
}

pub open spec fn steps_view(v: Seq<GitStep>) -> Seq<GitStepView> {
    Seq::new(v.len(), |i: int| v[i]@)
}

/// The commands that set a repository up: with a repository URL, a clone into the
/// directory and, when a ref is given, its checkout; without one, a fresh repository.
pub open spec fn repository_steps_of(git: GitInfo) -> Seq<GitStepView> {
    if git.repo@.len() > 0 {
        let clone = GitStepView { args: seq!["clone"@, git.repo@, "."@], failure: "Clone failed"@ };
        match git.ref_ {
            Some(r) => seq![clone, GitStepView { args: seq!["checkout"@, r@], failure: "Checkout failed"@ }],
            None => seq![clone],
        }
    } else {
        seq![GitStepView { args: seq!["init"@], failure: "Init failed"@ }]
    }
}

fn step(args: Vec<String>, failure: &str) -> (r: GitStep)
    ensures
        r@.args == Seq::new(args@.len(), |i: int| args@[i]@),
        r@.failure == failure@,
{
    GitStep { args, failure: String::from_str(failure) }
}

/// The commands that set a repository up.
pub fn repository_steps(git: &GitInfo) -> (r: Vec<GitStep>)
    ensures
        steps_view(r@) == repository_steps_of(*git),
{
    let mut steps: Vec<GitStep> = Vec::new();
    if !git.repo.as_str().is_empty() {
        let mut args: Vec<String> = Vec::new();
        args.push(String::from_str("clone"));
        args.push(git.repo.clone());
        args.push(String::from_str("."));
        let clone = step(args, "Clone failed");
        assert(clone@.args =~= seq!["clone"@, git.repo@, "."@]);
        steps.push(clone);
        match &git.ref_ {
            Some(r) => {
                let mut args: Vec<String> = Vec::new();
                args.push(String::from_str("checkout"));
                args.push(r.clone());
                let checkout = step(args, "Checkout failed");
                assert(checkout@.args =~= seq!["checkout"@, r@]);
                steps.push(checkout);
            },
            None => {},
        }
    } else {
        let mut args: Vec<String> = Vec::new();
        args.push(String::from_str("init"));
        let init = step(args, "Init failed");
        assert(init@.args =~= seq!["init"@]);
        steps.push(init);
    }
    assert(steps_view(steps@) =~= repository_steps_of(*git));
    steps
}

impl GitStep {
    /// The error of a failed step: its failure name and the detail.
    pub fn error(&self, detail: &str) -> (r: SessionCreateError)
        ensures
            r matches SessionCreateError::Git(m) && m@ == self@.failure + ": "@ + detail@,
    {
        SessionCreateError::Git(concat3(self.failure.as_str(), ": ", detail))
    }
}

/// How a git step ended: it succeeded, or it failed with a detail (the error that kept the
/// command from running, or what it wrote to its error output).
pub enum StepOutcome {
    Succeeded,
    Failed(String),
}

/// What follows step `done` of `steps`: the next step to run, none when it was the last, or
/// the error of the step where it failed; the steps stop at the first failure.
pub fn after_git_step(steps: &Vec<GitStep>, done: usize, outcome: StepOutcome) -> (r: Result<Option<usize>, SessionCreateError>)
    requires
        done < steps@.len(),
    ensures
        match outcome {
            StepOutcome::Failed(d) => r matches Err(SessionCreateError::Git(m)) && m@ == steps@[done as int]@.failure
                + ": "@ + d@,
            StepOutcome::Succeeded => r matches Ok(next) && next == if done + 1 < steps@.len() {
                Some((done + 1) as usize)
            } else {
                None
            },
        },
{
    match outcome {
        StepOutcome::Failed(d) => Err(steps[done].error(d.as_str())),
        StepOutcome::Succeeded => if done < steps.len() - 1 {
            Ok(Some(done + 1))
        } else {
            Ok(None)
        },
    }
}

/// The environment variables that the auth entries set: an `anthropic` token sets
/// `ANTHROPIC_API_KEY`, an `openai` token sets `OPENAI_API_KEY`, in the order of the
/// entries; other entries set nothing.
pub open spec fn auth_assignments(auth: Seq<AuthConfig>) -> Seq<(Seq<char>, Seq<char>)>
    decreases auth.len(),
{
    if auth.len() == 0 {
        Seq::empty()
    } else {
        let rest = auth_assignments(auth.drop_last());
        let a = auth.last();
        if a.type_@ == "anthropic"@ {
            rest.push(("ANTHROPIC_API_KEY"@, a.token@))
        } else if a.type_@ == "openai"@ {
            rest.push(("OPENAI_API_KEY"@, a.token@))
        } else {
            rest
        }
    }
}

pub open spec fn pairs_view(v: Seq<(String, String)>) -> Seq<(Seq<char>, Seq<char>)> {
    Seq::new(v.len(), |i: int| (v[i].0@, v[i].1@))
}

/// The environment variables that the auth entries of a work secret set, in order.
pub fn auth_environment(work_secret: &WorkSecret) -> (r: Vec<(String, String)>)
    ensures
        pairs_view(r@) == auth_assignments(work_secret.auth@),
{
    let auth = &work_secret.auth;
    let mut out: Vec<(String, String)> = Vec::new();
    let mut i: usize = 0;
    while i < auth.len()
        invariant
            i <= auth@.len(),
            pairs_view(out@) == auth_assignments(auth@.take(i as int)),
        decreases auth@.len() - i,
    {
        assert(auth@.take(i + 1).drop_last() =~= auth@.take(i as int));
        assert(auth@.take(i + 1).last() == auth@[i as int]);
        let a = &auth[i];
        let ghost before = out@;
        if str_eq(a.type_.as_str(), "anthropic") {
            out.push((String::from_str("ANTHROPIC_API_KEY"), a.token.clone()));
            assert(pairs_view(out@) =~= pairs_view(before).push(("ANTHROPIC_API_KEY"@, a.token@)));
        } else if str_eq(a.type_.as_str(), "openai") {
            out.push((String::from_str("OPENAI_API_KEY"), a.token.clone()));
            assert(pairs_view(out@) =~= pairs_view(before).push(("OPENAI_API_KEY"@, a.token@)));
        }
        i = i + 1;
    }
    assert(auth@.take(auth@.len() as int) =~= auth@);
    out
}

/// The name of a session's worktree directory.
pub fn worktree_name(unique_id: &str) -> (r: String)
    ensures
        r@ == "remote-session-"@ + unique_id@,
{
    String::from_str("remote-session-").concat(unique_id)
}

} // verus!

verus! {

/// A session spawned in the directory that its spawner plans works there: in the single
/// session and same-directory modes that is the spawner's base directory, in the worktree
/// mode the directory `remote-session-<unique_id>` adjoined to the temporary directory.
pub proof fn lemma_session_work_dir<S>(
    spawner: SessionSpawner,
    session: SpawnedSession<S>,
    temp_dir: PathBuf,
    unique_id: Seq<char>,
)
    requires
        buffer_path(&session.spec_work_dir()) == planned_dir(spawner.spec_spawn_mode(), &spawner.spec_base_dir(), &temp_dir, unique_id),
    ensures
        spawner.spec_spawn_mode() is SingleSession || spawner.spec_spawn_mode() is SameDir ==> buffer_path(
            &session.spec_work_dir(),
        ) == buffer_path(&spawner.spec_base_dir()),
        spawner.spec_spawn_mode() is Worktree ==> buffer_path(&session.spec_work_dir()) == buffer_path(
            &joined_path(&temp_dir, "remote-session-"@ + unique_id),
        ),
{
}

/// A repository is cloned into the worktree itself (`git clone <repo> .`) whether or not a
/// ref is given; a checkout of the ref follows exactly when there is one; without a
/// repository the worktree is initialised. Two sources with the same repository clone it
/// alike.
pub proof fn lemma_clone_into_the_worktree(git: GitInfo, other: GitInfo)
    ensures
        git.repo@.len() > 0 ==> ({
            let steps = repository_steps_of(git);
            &&& steps.len() == (if git.ref_ is Some { 2int } else { 1int })
            &&& steps[0].args == seq!["clone"@, git.repo@, "."@]
            &&& git.ref_ matches Some(r) ==> steps[1].args == seq!["checkout"@, r@]
        }),
        git.repo@.len() == 0 ==> repository_steps_of(git).len() == 1 && repository_steps_of(git)[0].args == seq![
            "init"@,
        ],
        git.repo@ == other.repo@ && git.repo@.len() > 0 ==> repository_steps_of(git)[0] == repository_steps_of(
            other,
        )[0],
{
}

/// A git token comes from the git information of some source: when there is a token,
/// there is git information to set a worktree up from.
pub proof fn lemma_token_implies_git_source(sources: Seq<SourceConfig>)
    ensures
        first_git_token(sources) is Some ==> first_git_info(sources) is Some,
    decreases sources.len(),
{
    if sources.len() > 0 {
        lemma_token_implies_git_source(sources.drop_first());
    }
}

/// Only worktree sessions work outside the base directory, and only they are cleaned up.
pub proof fn lemma_only_worktrees_cleaned(mode: SpawnMode)
    ensures
        mode_layout(mode).1 is Some <==> mode == SpawnMode::Worktree,
        mode_layout(mode).0 == WorkDirSource::NewWorktree <==> mode == SpawnMode::Worktree,
{
}

} // verus!
