use runtime::bridge::session::SessionSpawner;
use runtime::bridge::types::{
    AuthConfig, BridgeWorkerType, GitInfo, SourceConfig, SpawnMode, WorkSecret, DEFAULT_SESSION_TIMEOUT_MS,
};

#[test]
fn types_test_spawn_mode_default() {
    let mode = SpawnMode::default();
    assert_eq!(mode, SpawnMode::SameDir);
}

#[test]
fn session_test_spawn_mode_default() {
    let mode = SpawnMode::default();
    assert_eq!(mode, SpawnMode::SameDir);
}

#[test]
fn test_spawn_mode_variants() {
    // Just ensure we can create all variants
    let _ = SpawnMode::SingleSession;
    let _ = SpawnMode::Worktree;
    let _ = SpawnMode::SameDir;
}

#[test]
fn test_bridge_worker_type_to_string() {
    assert_eq!(BridgeWorkerType::ClaudeCode.to_string(), "claude_code");
    assert_eq!(BridgeWorkerType::ClaudeCodeAssistant.to_string(), "claude_code_assistant");
}

#[test]
fn test_session_spawner_new() {
    let temp_dir = std::path::PathBuf::from("/tmp");
    let spawner = SessionSpawner::new(temp_dir.clone(), SpawnMode::SameDir);
    assert_eq!(spawner.spawn_mode(), SpawnMode::SameDir);

    let spawner = SessionSpawner::new(temp_dir, SpawnMode::Worktree);
    assert_eq!(spawner.spawn_mode(), SpawnMode::Worktree);
}

#[test]
fn test_work_secret_default() {
    let secret = WorkSecret::default();
    assert_eq!(secret.version, 0);
    assert_eq!(secret.session_ingress_token, "");
    assert_eq!(secret.api_base_url, "");
    assert!(secret.sources.is_empty());
    assert!(secret.auth.is_empty());
    assert!(secret.claude_code_args.is_none());
    assert!(secret.mcp_config.is_none());
    assert!(secret.environment_variables.is_none());
    assert!(secret.use_code_sessions.is_none());
}

#[test]
fn test_source_config_default() {
    let config = SourceConfig::default();
    assert_eq!(config.type_, "");
    assert!(config.git_info.is_none());
}

#[test]
fn test_git_info_default() {
    let info = GitInfo::default();
    assert_eq!(info.type_, "");
    assert_eq!(info.repo, "");
    assert!(info.ref_.is_none());
    assert!(info.token.is_none());
}

#[test]
fn test_auth_config_default() {
    let config = AuthConfig::default();
    assert_eq!(config.type_, "");
    assert_eq!(config.token, "");
}

#[test]
fn session_timeout_default_is_one_day() {
    assert_eq!(DEFAULT_SESSION_TIMEOUT_MS, 86_400_000);
}
