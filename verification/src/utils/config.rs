//! The stored configuration: where its file lies, and what loading it gives.

use vstd::prelude::*;
use crate::text::{join, owned};

verus! {

/// The configuration of the client.
#[derive(Debug, Clone, PartialEq, Eq)]
pub struct GitLabConfig {
    pub api_url: String,
    pub api_token: String,
}

/// What a [`GitLabConfig`] holds, as mathematical values.
pub struct GitLabConfigView {
    pub api_url: Seq<char>,
    pub api_token: Seq<char>,
}

impl View for GitLabConfig {
    type V = GitLabConfigView;

    open spec fn view(&self) -> GitLabConfigView {
        GitLabConfigView { api_url: self.api_url@, api_token: self.api_token@ }
    }
}

/// Why the configuration could not be had.
#[derive(Debug, Clone, PartialEq, Eq)]
pub enum ConfigError {
    /// The user has no directory for configuration.
    NoDirectory,
    /// No file is at the path of the configuration.
    Missing { path: String },
}

/// What a [`ConfigError`] holds, as mathematical values.
pub enum ConfigErrorView {
    NoDirectory,
    Missing { path: Seq<char> },
}

impl View for ConfigError {
    type V = ConfigErrorView;

    open spec fn view(&self) -> ConfigErrorView {
        match self {
            ConfigError::NoDirectory => ConfigErrorView::NoDirectory,
            ConfigError::Missing { path } => ConfigErrorView::Missing { path: path@ },
        }
    }
}

impl ConfigErrorView {
    /// The error in words.
    pub open spec fn message(self) -> Seq<char> {
        match self {
            ConfigErrorView::NoDirectory => "Could not determine config directory"@,
            ConfigErrorView::Missing { path } => "Config file does not exist: "@ + path,
        }
    }
}

impl ConfigError {
    /// The error in words.
    pub fn message(&self) -> (text: String)
        ensures
            text@ == self@.message(),
    {
        match self {
            ConfigError::NoDirectory => owned("Could not determine config directory"),
            ConfigError::Missing { path } => join("Config file does not exist: ", path.as_str()),
        }
    }
}

/// The directory of the client's configuration under the user's directory
/// for configuration.
pub open spec fn directory_under(config_dir: Seq<char>) -> Seq<char> {
    config_dir + "/gitlab-bulk-cli"@
}

/// The file of the client's configuration under the user's directory for
/// configuration.
pub open spec fn file_under(config_dir: Seq<char>) -> Seq<char> {
    directory_under(config_dir) + "/config.toml"@
}

/// Where the configuration is stored.
#[derive(Debug, Clone, PartialEq, Eq)]
pub struct ConfigManager {
    directory: String,
    config_path: String,
}

impl ConfigManager {
    /// The directory that holds the file.
    pub closed spec fn directory(&self) -> Seq<char> {
        self.directory@
    }

    /// The path of the file.
    pub closed spec fn path(&self) -> Seq<char> {
        self.config_path@
    }

    /// The place of the configuration under `config_dir`, the user's
    /// directory for configuration. Without such a directory there is no
    /// place.
    pub fn new(config_dir: Option<&str>) -> (manager: Result<ConfigManager, ConfigError>)
        ensures
            match config_dir {
                Some(dir) => manager is Ok && manager->Ok_0.directory() == directory_under(dir@)
                    && manager->Ok_0.path() == file_under(dir@),
                None => manager is Err && manager->Err_0@ == ConfigErrorView::NoDirectory,
            },
    {
        match config_dir {
            Some(dir) => {
                let directory = join(dir, "/gitlab-bulk-cli");
                let config_path = join(directory.as_str(), "/config.toml");
                Ok(ConfigManager { directory, config_path })
            },
            None => Err(ConfigError::NoDirectory),
        }
    }

    /// What loading gives: `stored` is what the file holds, or nothing if no
    /// file is there, and then the error names the path.
    pub fn load(&self, stored: Option<GitLabConfig>) -> (config: Result<GitLabConfig, ConfigError>)
        ensures
            match stored {
                Some(c) => config is Ok && config->Ok_0@ == c@,
                None => config is Err && config->Err_0@ == (ConfigErrorView::Missing {
                    path: self.path(),
                }),
            },
    {
        match stored {
            Some(config) => Ok(config),
            None => Err(ConfigError::Missing { path: self.config_path.clone() }),
        }
    }

    /// The directory that holds the file.
    pub fn config_dir(&self) -> (directory: &str)
        ensures
            directory@ == self.directory(),
    {
        self.directory.as_str()
    }

    /// The path of the file.
    pub fn config_path(&self) -> (path: &str)
        ensures
            path@ == self.path(),
    {
        self.config_path.as_str()
    }
}

} // verus!
