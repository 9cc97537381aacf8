use gitlab_cli::utils::config::{ConfigError, ConfigManager, GitLabConfig};

fn config() -> GitLabConfig {
    GitLabConfig {
        api_url: "https://gitlab.example.com/api/v4".to_string(),
        api_token: "test-token".to_string(),
    }
}

#[test]
fn the_configuration_lies_under_the_users_directory() {
    let manager = ConfigManager::new(Some("/home/user/.config")).unwrap();
    assert_eq!(manager.config_dir(), "/home/user/.config/gitlab-bulk-cli");
    assert_eq!(manager.config_path(), "/home/user/.config/gitlab-bulk-cli/config.toml");
}

#[test]
fn without_a_directory_there_is_no_place() {
    let error = ConfigManager::new(None).unwrap_err();
    assert_eq!(error, ConfigError::NoDirectory);
    assert_eq!(error.message(), "Could not determine config directory");
}

#[test]
fn loading_gives_what_the_file_holds() {
    let manager = ConfigManager::new(Some("/etc")).unwrap();
    let loaded = manager.load(Some(config())).unwrap();
    assert_eq!(loaded.api_url, "https://gitlab.example.com/api/v4");
    assert_eq!(loaded.api_token, "test-token");
}

#[test]
fn loading_without_a_file_names_the_path() {
    let manager = ConfigManager::new(Some("/etc")).unwrap();
    let error = manager.load(None).unwrap_err();
    assert_eq!(error, ConfigError::Missing { path: "/etc/gitlab-bulk-cli/config.toml".to_string() });
    assert_eq!(
        error.message(),
        "Config file does not exist: /etc/gitlab-bulk-cli/config.toml"
    );
}
