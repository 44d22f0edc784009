use yt_dlp_proxy::constants::defaults::{LOG_MAX_ARCHIVED, LOG_MAX_SIZE_MB, UPDATE_CHECK_DAYS};
use yt_dlp_proxy::constants::{
    CONFIG_FILE_NAME, GITHUB_API_URL, VERSION_FILE_NAME, YT_DLP_EXECUTABLE,
};
use yt_dlp_proxy::models::{AppConfig, LoggingConfig};
use yt_dlp_proxy::{AppError, ConfigManager};

fn located(location: &str) -> AppConfig {
    AppConfig { ytdlp_location: location.to_string(), ..AppConfig::default() }
}

#[test]
fn constants_name_the_files_and_the_endpoint() {
    assert_eq!(CONFIG_FILE_NAME, "config.json");
    assert_eq!(VERSION_FILE_NAME, "version.txt");
    assert_eq!(GITHUB_API_URL, "https://api.github.com/repos/yt-dlp/yt-dlp/releases/latest");
    assert_eq!(YT_DLP_EXECUTABLE, "yt-dlp.exe");
    assert_eq!(LOG_MAX_SIZE_MB, 10);
    assert_eq!(LOG_MAX_ARCHIVED, 5);
    assert_eq!(UPDATE_CHECK_DAYS, 1);
}

#[test]
fn default_logging_keeps_five_archives_of_ten_mebibytes() {
    assert_eq!(
        LoggingConfig::default(),
        LoggingConfig { max_file_size_mb: 10, max_archived_logs: 5, debug_enabled: false }
    );
}

#[test]
fn default_configuration_allows_get_url_only() {
    let config = AppConfig::default();
    assert_eq!(config.ytdlp_location, "tools/yt-dlp.exe");
    assert_eq!(config.allowed_args, vec!["--get-url"]);
    assert_eq!(
        config.custom_args,
        vec![
            "--no-check-certificate",
            "--no-warnings",
            "--no-cache-dir",
            "-f",
            "best[height<=1080][protocol^=m3u8]"
        ]
    );
    assert!(!config.cookies);
    assert_eq!(config.cookies_browser, "firefox");
    assert_eq!(config.logging, LoggingConfig::default());
}

#[test]
fn configuration_file_lives_in_the_application_directory() {
    assert_eq!(ConfigManager::new("/opt/app".to_string()).get_config_path(), "/opt/app/config.json");
    assert_eq!(ConfigManager::new("/opt/app/".to_string()).get_config_path(), "/opt/app/config.json");
    assert_eq!(ConfigManager::new(String::new()).get_config_path(), "config.json");
    assert_eq!(ConfigManager::new("rel".to_string()).get_config_path(), "rel/config.json");
}

#[test]
fn relative_location_is_placed_below_the_application_directory() {
    let manager = ConfigManager::new("/opt/app".to_string());
    let separator = std::path::MAIN_SEPARATOR_STR;
    assert_eq!(
        manager.get_ytdlp_path(&AppConfig::default(), "/opt/app"),
        format!("/opt/app/tools{}yt-dlp.exe", separator)
    );
    assert_eq!(manager.get_ytdlp_path(&located("yt-dlp"), "/srv"), "/srv/yt-dlp");
    assert_eq!(manager.get_ytdlp_path(&located(""), "/srv"), "/srv/");
}

#[test]
fn separators_of_a_relative_location_are_replaced() {
    let config = located("tools/bin/yt-dlp.exe");
    assert_eq!(
        ConfigManager::resolve_ytdlp_path(&config, "/opt/app", "/"),
        "/opt/app/tools/bin/yt-dlp.exe"
    );
    assert_eq!(
        ConfigManager::resolve_ytdlp_path(&config, "/opt/app", "\\"),
        "/opt/app/tools\\bin\\yt-dlp.exe"
    );
    assert_eq!(
        ConfigManager::resolve_ytdlp_path(&config, "/opt/app", ""),
        "/opt/app/toolsbinyt-dlp.exe"
    );
    assert_eq!(
        ConfigManager::resolve_ytdlp_path(&located("a//b/"), "/x", "::"),
        "/x/a::::b::"
    );
    assert_eq!(ConfigManager::resolve_ytdlp_path(&located("/abs/p"), "/x", "::"), "/abs/p");
}

#[test]
fn absolute_location_is_taken_as_it_is() {
    let manager = ConfigManager::new("/opt/app".to_string());
    assert_eq!(manager.get_ytdlp_path(&located("/usr/bin/yt-dlp"), "/opt/app"), "/usr/bin/yt-dlp");
    assert_eq!(manager.get_ytdlp_path(&located("/"), "/opt/app"), "/");
}

#[test]
fn configuration_failures_are_configuration_errors() {
    assert_eq!(
        ConfigManager::parse_failure("expected value at line 1 column 1"),
        AppError::Config("Failed to parse config.json: expected value at line 1 column 1".to_string())
    );
    assert_eq!(
        ConfigManager::serialize_failure("key must be a string"),
        AppError::Config("Failed to serialize config: key must be a string".to_string())
    );
    assert_eq!(
        ConfigManager::write_failure("disk full"),
        AppError::Config("Failed to write config file: disk full".to_string())
    );
}
