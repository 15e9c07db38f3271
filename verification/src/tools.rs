//! The external tools a session starts, and whether they can be found.

use crate::config::{CommandConfig, Config, FileManagerConfig};
use crate::setup::detect::command_exists;
use crate::text::string_of;
use vstd::prelude::*;

verus! {

/// The Helix editor at a given path.
pub struct HelixClient {
    pub path: String,
}

impl HelixClient {
    pub fn new(path: &str) -> (res: Self)
        ensures
            res.path@ == path@,
    {
        HelixClient { path: string_of(path) }
    }

    /// Whether Helix is found on `PATH`.
    pub fn is_available(&self) -> bool {
        command_exists(self.path.as_str())
    }
}

/// The configured Git client.
pub struct GitClient {
    pub config: CommandConfig,
}

impl GitClient {
    pub fn new(config: &CommandConfig) -> (res: Self)
        ensures
            res.config.command@ == config.command@,
            res.config.args@ == config.args@,
    {
        GitClient { config: CommandConfig { command: config.command.clone(), args: config.args.clone() } }
    }

    /// Whether the configured client is found on `PATH`.
    pub fn is_available(&self) -> bool {
        command_exists(self.config.command.as_str())
    }

    /// Whether `delta` is found on `PATH`.
    pub fn delta_available(&self) -> bool {
        command_exists("delta")
    }
}

/// The Yazi file manager.
pub struct YaziClient {
    pub path: String,
}

impl YaziClient {
    /// The client for the configured file manager command.
    pub fn new(config: &FileManagerConfig) -> (res: Self)
        ensures
            res.path@ == config.command@,
    {
        YaziClient { path: config.command.clone() }
    }

    pub fn is_available(&self) -> bool {
        command_exists(self.path.as_str())
    }
}

/// The external tools of a configuration.
pub struct ToolManager {
    pub yazi: YaziClient,
    pub git: GitClient,
}

impl ToolManager {
    pub fn new(config: &Config) -> (res: Self)
        ensures
            res.yazi.path@ == config.tools.file_manager.command@,
            res.git.config.command@ == config.tools.git.command@,
            res.git.config.args@ == config.tools.git.args@,
    {
        ToolManager { yazi: YaziClient::new(&config.tools.file_manager), git: GitClient::new(&config.tools.git) }
    }

    /// Whether a command is found on `PATH`.
    pub fn is_available(&self, command: &str) -> bool {
        command_exists(command)
    }
}

} // verus!
