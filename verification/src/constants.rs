use vstd::prelude::*;

pub mod defaults;

verus! {

/// File name of the persisted configuration, inside the application directory.
pub const CONFIG_FILE_NAME: &'static str = "config.json";

/// File name of the persisted version record, beside the managed executable.
pub const VERSION_FILE_NAME: &'static str = "version.txt";

/// Endpoint that describes the latest release of the managed tool.
pub const GITHUB_API_URL: &'static str =
    "https://api.github.com/repos/yt-dlp/yt-dlp/releases/latest";

/// File name of the managed executable, and of the release asset that holds it.
pub const YT_DLP_EXECUTABLE: &'static str = "yt-dlp.exe";

} // verus!
