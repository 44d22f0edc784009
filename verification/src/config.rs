use vstd::prelude::*;
use vstd::string::StringExecFns;

use crate::constants::CONFIG_FILE_NAME;
use crate::error::{AppError, AppErrorText};
use crate::models::AppConfig;
use crate::paths::{is_absolute, is_absolute_path, join, joined_path, main_separator};
use crate::text::{replace_char, replaced};

verus! {

/// Where the managed executable lives, for the location `location` of a
/// configuration and the application directory `app_dir`: the location itself
/// if it is absolute, else the location below the application directory, with
/// each `/` in it replaced by `separator`.
pub open spec fn tool_path(
    location: Seq<char>,
    app_dir: Seq<char>,
    separator: Seq<char>,
) -> Seq<char> {
    if is_absolute_path(location) {
        location
    } else {
        joined_path(app_dir, replaced(location, '/', separator))
    }
}

/// Knows where the configuration file lives and where the configuration
/// places the managed executable.
pub struct ConfigManager {
    config_path: String,
}

impl ConfigManager {
    /// Path of the configuration file.
    pub closed spec fn path(&self) -> Seq<char> {
        self.config_path@
    }

    /// A manager for the configuration file in `app_dir`.
    pub fn new(app_dir: String) -> (manager: Self)
        ensures
            manager.path() == joined_path(app_dir@, CONFIG_FILE_NAME@),
    {
        ConfigManager { config_path: join(app_dir.as_str(), CONFIG_FILE_NAME) }
    }

    /// Path of the configuration file.
    pub fn get_config_path(&self) -> (path: String)
        ensures
            path@ == self.path(),
    {
        self.config_path.clone()
    }

    /// Path of the managed executable according to `config`, with the
    /// separator of the platform: see [`ConfigManager::resolve_ytdlp_path`].
    pub fn get_ytdlp_path(&self, config: &AppConfig, app_dir: &str) -> (path: String)
        ensures
            exists|separator: Seq<char>|
                path@ == #[trigger] tool_path(config.ytdlp_location@, app_dir@, separator),
            is_absolute_path(config.ytdlp_location@) ==> path@ == config.ytdlp_location@,
    {
        let separator = main_separator();
        Self::resolve_ytdlp_path(config, app_dir, separator.as_str())
    }

    /// Path of the managed executable according to `config`, where
    /// `separator` parts the components of a path: an absolute location is
    /// taken as it is, any other is placed below `app_dir`.
    pub fn resolve_ytdlp_path(config: &AppConfig, app_dir: &str, separator: &str) -> (path: String)
        ensures
            path@ == tool_path(config.ytdlp_location@, app_dir@, separator@),
    {
        if is_absolute(config.ytdlp_location.as_str()) {
            config.ytdlp_location.clone()
        } else {
            let normalized = replace_char(config.ytdlp_location.as_str(), '/', separator);
            join(app_dir, normalized.as_str())
        }
    }

    /// The error for a configuration file that cannot be read as a
    /// configuration.
    pub fn parse_failure(reason: &str) -> (error: AppError)
        ensures
            error@ == AppErrorText::Config("Failed to parse config.json: "@ + reason@),
    {
        let mut message = "Failed to parse config.json: ".to_owned();
        message.append(reason);
        AppError::Config(message)
    }

    /// The error for a configuration that cannot be written out as text.
    pub fn serialize_failure(reason: &str) -> (error: AppError)
        ensures
            error@ == AppErrorText::Config("Failed to serialize config: "@ + reason@),
    {
        let mut message = "Failed to serialize config: ".to_owned();
        message.append(reason);
        AppError::Config(message)
    }

    /// The error for a configuration file that cannot be written.
    pub fn write_failure(reason: &str) -> (error: AppError)
        ensures
            error@ == AppErrorText::Config("Failed to write config file: "@ + reason@),
    {
        let mut message = "Failed to write config file: ".to_owned();
        message.append(reason);
        AppError::Config(message)
    }
}

} // verus!
