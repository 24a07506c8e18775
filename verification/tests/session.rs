use std::collections::HashMap;
use std::path::PathBuf;

use runtime::bridge::session::{
    after_git_step, auth_environment, credential_helper, git_source, git_token, repository_steps, worktree_name,
    SessionCleanup, SessionCreateError, SessionSpawner, StepOutcome, WorkDirSource,
};
use runtime::bridge::types::{AuthConfig, GitInfo, SourceConfig, SpawnMode, WorkSecret};

fn git(repo: &str, r: Option<&str>, token: Option<&str>) -> GitInfo {
    GitInfo { type_: "github".into(), repo: repo.into(), ref_: r.map(String::from), token: token.map(String::from) }
}

#[test]
fn layouts_by_mode() {
    let base = PathBuf::from("/work");
    assert_eq!(SessionSpawner::new(base.clone(), SpawnMode::Worktree).layout(), (WorkDirSource::NewWorktree, Some(SessionCleanup::Worktree)));
    assert_eq!(SessionSpawner::new(base.clone(), SpawnMode::SameDir).layout(), (WorkDirSource::BaseDir, None));
    assert_eq!(SessionSpawner::new(base, SpawnMode::SingleSession).layout(), (WorkDirSource::BaseDir, None));
}

#[test]
fn spawned_session_records_mode_and_env() {
    let spawner = SessionSpawner::new(PathBuf::from("/work"), SpawnMode::Worktree);
    let mut secret = WorkSecret::default();
    let mut env = HashMap::new();
    env.insert("A".to_string(), "1".to_string());
    secret.environment_variables = Some(env);
    let mut spawned = spawner.spawned(7u32, PathBuf::from("/tmp/wt"), &secret);
    assert_eq!(*spawned.session(), 7);
    *spawned.session_mut() = 8;
    assert_eq!(spawned.session, 8);
    assert_eq!(spawned.mode, SpawnMode::Worktree);
    assert_eq!(spawned.work_dir(), std::path::Path::new("/tmp/wt"));
    assert_eq!(spawned.env_vars().get("A"), Some(&"1".to_string()));
    assert_eq!(spawned.cleanup_strategy(), Some(SessionCleanup::Worktree));

    let plain = SessionSpawner::new(PathBuf::from("/work"), SpawnMode::SameDir).spawned((), PathBuf::from("/work"), &WorkSecret::default());
    assert!(plain.env_vars().is_empty());
    assert_eq!(plain.cleanup_strategy(), None);
}

#[test]
fn git_selection() {
    let mut secret = WorkSecret::default();
    secret.sources = vec![
        SourceConfig { type_: "none".into(), git_info: None },
        SourceConfig { type_: "git".into(), git_info: Some(git("https://x/repo.git", None, None)) },
        SourceConfig { type_: "git".into(), git_info: Some(git("https://y/repo.git", None, Some("tk"))) },
    ];
    assert_eq!(git_source(&secret).map(|g| g.repo.clone()), Some("https://x/repo.git".to_string()));
    assert_eq!(git_token(&secret), Some(&"tk".to_string()));
    assert!(git_token(&WorkSecret::default()).is_none());
    assert!(git_source(&WorkSecret::default()).is_none());
}

#[test]
fn repository_commands() {
    let steps = repository_steps(&git("https://x/r.git", Some("dev"), None));
    assert_eq!(steps.len(), 2);
    assert_eq!(steps[0].args, vec!["clone".to_string(), "https://x/r.git".to_string(), ".".to_string()]);
    assert_eq!(steps[0].failure, "Clone failed");
    assert_eq!(steps[1].args, vec!["checkout".to_string(), "dev".to_string()]);
    match steps[1].error("bad ref") {
        SessionCreateError::Git(m) => assert_eq!(m, "Checkout failed: bad ref"),
        _ => panic!("git error expected"),
    }
    let init = repository_steps(&git("", Some("dev"), None));
    assert_eq!(init.len(), 1);
    assert_eq!(init[0].args, vec!["init".to_string()]);
    assert_eq!(init[0].failure, "Init failed");
    assert_eq!(repository_steps(&git("r", None, None)).len(), 1);
}

#[test]
fn credentials_and_environment() {
    assert_eq!(credential_helper("abc"), "!f() { echo 'username=token'; echo 'password=abc'; }; f");
    let mut secret = WorkSecret::default();
    secret.auth = vec![
        AuthConfig { type_: "openai".into(), token: "o".into() },
        AuthConfig { type_: "other".into(), token: "x".into() },
        AuthConfig { type_: "anthropic".into(), token: "a".into() },
    ];
    assert_eq!(
        auth_environment(&secret),
        vec![("OPENAI_API_KEY".to_string(), "o".to_string()), ("ANTHROPIC_API_KEY".to_string(), "a".to_string())]
    );
    assert_eq!(worktree_name("1234"), "remote-session-1234");
    assert_eq!(SessionCreateError::Git("x".into()).to_string(), "Git error: x");
    assert_eq!(SessionCreateError::InvalidPath("x".into()).to_string(), "Invalid path: x");
    assert_eq!(SessionCreateError::Session("x".into()).to_string(), "Session error: x");
    assert_eq!(SessionCreateError::Command("x".into()).to_string(), "Command execution error: x");
}

#[test]
fn io_error_text() {
    let err = std::io::Error::new(std::io::ErrorKind::Other, "disk full");
    assert_eq!(SessionCreateError::Io(err).to_string(), "IO error: disk full");
}

#[test]
fn session_dirs_by_mode() {
    let temp = PathBuf::from("/tmp");
    for mode in [SpawnMode::SingleSession, SpawnMode::SameDir] {
        let sp = SessionSpawner::new(PathBuf::from("/work/base"), mode);
        assert_eq!(sp.session_dir(&temp, "abc"), PathBuf::from("/work/base"));
    }
    let sp = SessionSpawner::new(PathBuf::from("/work/base"), SpawnMode::Worktree);
    let dir = sp.session_dir(&temp, "abc");
    assert_eq!(dir, PathBuf::from("/tmp/remote-session-abc"));
    assert_eq!(dir.parent(), Some(temp.as_path()));
    let spawned = sp.spawned((), dir, &WorkSecret::default());
    assert_eq!(spawned.work_dir(), std::path::Path::new("/tmp/remote-session-abc"));
}

#[test]
fn git_steps_stop_at_the_first_failure() {
    let steps = repository_steps(&git("https://x/r.git", Some("dev"), None));
    assert_eq!(steps.len(), 2);
    assert!(matches!(after_git_step(&steps, 0, StepOutcome::Succeeded), Ok(Some(1))));
    assert!(matches!(after_git_step(&steps, 1, StepOutcome::Succeeded), Ok(None)));
    match after_git_step(&steps, 0, StepOutcome::Failed("fatal: no repo".into())) {
        Err(SessionCreateError::Git(m)) => assert_eq!(m, "Clone failed: fatal: no repo"),
        _ => panic!("expected a git error"),
    }
    match after_git_step(&steps, 1, StepOutcome::Failed("bad ref".into())) {
        Err(SessionCreateError::Git(m)) => assert_eq!(m, "Checkout failed: bad ref"),
        _ => panic!("expected a git error"),
    }
}
