use vstd::prelude::*;

use crate::constants::defaults::{LOG_MAX_ARCHIVED, LOG_MAX_SIZE_MB};

verus! {

/// Settings of the log file.
#[derive(Clone, Copy, Debug, PartialEq, Eq, Structural)]
pub struct LoggingConfig {
    /// Size of the log file, in mebibytes, above which it is rotated.
    pub max_file_size_mb: u32,
    /// Number of rotated log files that are kept.
    pub max_archived_logs: u32,
    /// Whether debug messages are recorded.
    pub debug_enabled: bool,
}

impl Default for LoggingConfig {
    fn default() -> (r: Self)
        ensures
            r.max_file_size_mb == LOG_MAX_SIZE_MB,
            r.max_archived_logs == LOG_MAX_ARCHIVED,
            !r.debug_enabled,
    {
        LoggingConfig {
            max_file_size_mb: LOG_MAX_SIZE_MB,
            max_archived_logs: LOG_MAX_ARCHIVED,
            debug_enabled: false,
        }
    }
}

/// Application configuration: where the managed tool lives and the policy
/// that governs the arguments handed to it.
#[derive(Clone, Debug, PartialEq, Eq)]
pub struct AppConfig {
    /// Location of the managed executable, absolute or relative to the
    /// application directory.
    pub ytdlp_location: String,
    /// Flags that may pass from the caller to the tool, matched exactly.
    pub allowed_args: Vec<String>,
    /// Arguments that are always handed to the tool, in this order.
    pub custom_args: Vec<String>,
    /// Whether the tool is told to read cookies from a browser.
    pub cookies: bool,
    /// The browser whose cookies are read.
    pub cookies_browser: String,
    /// Settings of the log file.
    pub logging: LoggingConfig,
}

/// The location of the managed executable in a default configuration.
pub const DEFAULT_YTDLP_LOCATION: &'static str = "tools/yt-dlp.exe";

/// The browser whose cookies are read in a default configuration.
pub const DEFAULT_COOKIES_BROWSER: &'static str = "firefox";

/// The flags that a default configuration lets pass.
pub open spec fn default_allowed_args() -> Seq<Seq<char>> {
    seq!["--get-url"@]
}

/// The arguments that a default configuration always hands to the tool.
pub open spec fn default_custom_args() -> Seq<Seq<char>> {
    seq![
        "--no-check-certificate"@,
        "--no-warnings"@,
        "--no-cache-dir"@,
        "-f"@,
        "best[height<=1080][protocol^=m3u8]"@,
    ]
}

impl Default for AppConfig {
    /// The configuration that is written where none is found.
    fn default() -> (r: Self)
        ensures
            r.ytdlp_location@ == DEFAULT_YTDLP_LOCATION@,
            crate::text::texts(r.allowed_args@) == default_allowed_args(),
            crate::text::texts(r.custom_args@) == default_custom_args(),
            !r.cookies,
            r.cookies_browser@ == DEFAULT_COOKIES_BROWSER@,
            r.logging.max_file_size_mb == LOG_MAX_SIZE_MB,
            r.logging.max_archived_logs == LOG_MAX_ARCHIVED,
            !r.logging.debug_enabled,
    {
        let mut allowed_args: Vec<String> = Vec::new();
        allowed_args.push("--get-url".to_owned());
        let mut custom_args: Vec<String> = Vec::new();
        custom_args.push("--no-check-certificate".to_owned());
        custom_args.push("--no-warnings".to_owned());
        custom_args.push("--no-cache-dir".to_owned());
        custom_args.push("-f".to_owned());
        custom_args.push("best[height<=1080][protocol^=m3u8]".to_owned());
        let r = AppConfig {
            ytdlp_location: DEFAULT_YTDLP_LOCATION.to_owned(),
            allowed_args,
            custom_args,
            cookies: false,
            cookies_browser: DEFAULT_COOKIES_BROWSER.to_owned(),
            logging: LoggingConfig::default(),
        };
        r
    }
}

/// An instant in UTC: whole seconds since the Unix epoch, and the nanoseconds
/// that have passed of the second after.
#[derive(Clone, Copy, Debug, PartialEq, Eq, Structural)]
pub struct Timestamp {
    /// Whole seconds since 1970-01-01T00:00:00Z.
    pub secs: i64,
    /// Nanoseconds since the last whole second.
    pub nanos: u32,
}

impl Timestamp {
    /// The instant as nanoseconds since the Unix epoch.
    pub open spec fn as_nanos(self) -> int {
        self.secs * 1_000_000_000 + self.nanos
    }
}

/// What is known locally of the installed version of the managed tool.
#[derive(Clone, Debug, PartialEq, Eq)]
pub struct VersionInfo {
    /// Tag of the installed release; empty where none was recorded.
    pub version: String,
    /// When the remote end was last asked for its latest release.
    pub last_check: Option<Timestamp>,
}

impl Default for VersionInfo {
    /// The record of a first run: no version, never checked.
    fn default() -> (r: Self)
        ensures
            r.version@ == Seq::<char>::empty(),
            r.last_check is None,
    {
        VersionInfo { version: String::new(), last_check: None }
    }
}

/// A version record over the text of its tag.
pub struct VersionInfoText {
    pub version: Seq<char>,
    pub last_check: Option<Timestamp>,
}

impl View for VersionInfo {
    type V = VersionInfoText;

    open spec fn view(&self) -> VersionInfoText {
        VersionInfoText { version: self.version@, last_check: self.last_check }
    }
}

/// One downloadable file of a release.
#[derive(Clone, Debug, PartialEq, Eq)]
pub struct GitHubAsset {
    /// File name of the asset.
    pub name: String,
    /// Where the asset is fetched from.
    pub browser_download_url: String,
}

/// The remote description of a release.
#[derive(Clone, Debug, PartialEq, Eq)]
pub struct GitHubRelease {
    /// Version tag of the release.
    pub tag_name: String,
    /// The files that the release offers.
    pub assets: Vec<GitHubAsset>,
}

/// An asset over the text of its name and of its address.
pub struct AssetText {
    pub name: Seq<char>,
    pub url: Seq<char>,
}

impl View for GitHubAsset {
    type V = AssetText;

    open spec fn view(&self) -> AssetText {
        AssetText { name: self.name@, url: self.browser_download_url@ }
    }
}

/// A release over the text of its tag and of its assets.
pub struct ReleaseText {
    pub tag: Seq<char>,
    pub assets: Seq<AssetText>,
}

impl View for GitHubRelease {
    type V = ReleaseText;

    open spec fn view(&self) -> ReleaseText {
        ReleaseText {
            tag: self.tag_name@,
            assets: Seq::new(self.assets@.len(), |i: int| self.assets@[i]@),
        }
    }
}

} // verus!
