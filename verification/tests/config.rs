use santosobot::config::{
    default_api_base, default_enabled, default_max_iterations, default_max_tokens,
    default_memory_window, default_shell_timeout, default_workspace, Config,
};
use std::path::PathBuf;

#[test]
fn test_config_defaults() {
    let config = Config::default();

    assert_eq!(config.agent.model, "gpt-4o-mini");
    assert_eq!(config.agent.max_tokens, 8192);
    assert_eq!(config.agent.max_iterations, 20);
    assert_eq!(config.agent.memory_window, 50);
    assert_eq!(config.agent.workspace, "~/.santosobot/workspace");

    assert_eq!(config.provider.api_base, "https://api.openai.com/v1");
    assert!(config.provider.api_key.is_empty());
    assert!(config.provider.model.is_empty());
    assert!(config.provider.brave_api_key.is_empty());

    assert_eq!(config.tools.shell_timeout, 60);
    assert!(!config.tools.restrict_to_workspace);

    assert!(!config.channels.telegram.enabled);
    assert!(config.channels.telegram.token.is_empty());
    assert!(config.channels.telegram.allow_from.is_empty());

    assert!(config.channels.cli.enabled);
}

#[test]
fn test_workspace_path_expansion() {
    let mut config = Config::default();
    config.agent.workspace = "~/test_workspace".to_string();

    let path = PathBuf::from(config.workspace_path());
    let home_dir = dirs::home_dir().unwrap_or_default();
    let expected = home_dir.join("test_workspace");

    assert_eq!(path, expected);
}

#[test]
fn every_tilde_becomes_the_home_directory() {
    let mut config = Config::default();
    config.agent.workspace = "~/a~b/~".to_string();
    assert_eq!(config.workspace_path_in("/home/u"), "/home/u/a/home/ub//home/u");
    assert_eq!(config.workspace_path_in(""), "/ab/");
    config.agent.workspace = "/plain/path".to_string();
    assert_eq!(config.workspace_path_in("/home/u"), "/plain/path");
    config.agent.workspace = String::new();
    assert_eq!(config.workspace_path_in("/home/u"), "");
}

#[test]
fn file_tools_stay_in_the_workspace_where_restricted() {
    let mut config = Config::default();
    assert_eq!(config.tools.allowed_dir("/w"), None);
    config.tools.restrict_to_workspace = true;
    assert_eq!(config.tools.allowed_dir("/w"), Some("/w".to_string()));
}

#[test]
fn default_values() {
    assert_eq!(default_max_tokens(), 8192);
    assert_eq!(default_max_iterations(), 20);
    assert_eq!(default_memory_window(), 50);
    assert_eq!(default_workspace(), "~/.santosobot/workspace");
    assert_eq!(default_api_base(), "https://api.openai.com/v1");
    assert_eq!(default_shell_timeout(), 60);
    assert!(default_enabled());
}
