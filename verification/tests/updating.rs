use yt_dlp_proxy::downloader::{find_asset, is_check_due, UpdateAction, UpdateEvent, UpdateState};
use yt_dlp_proxy::logger::{LogConfig, Logger};
use yt_dlp_proxy::models::{GitHubAsset, GitHubRelease, Timestamp, VersionInfo};
use yt_dlp_proxy::{AppError, Downloader};

const DAY: i64 = 86_400;

fn at(secs: i64, nanos: u32) -> Timestamp {
    Timestamp { secs, nanos }
}

fn downloader() -> Downloader {
    let logger = Logger::with_config("/opt/app/logs.log".to_string(), LogConfig::default());
    Downloader::new("/opt/app/tools/yt-dlp.exe".to_string(), logger)
}

fn asset(name: &str, url: &str) -> GitHubAsset {
    GitHubAsset { name: name.to_string(), browser_download_url: url.to_string() }
}

fn release(tag: &str, assets: Vec<GitHubAsset>) -> GitHubRelease {
    GitHubRelease { tag_name: tag.to_string(), assets }
}

fn record(version: &str, last_check: Option<Timestamp>) -> VersionInfo {
    VersionInfo { version: version.to_string(), last_check }
}

fn fetch_release() -> UpdateAction {
    UpdateAction::FetchRelease {
        url: "https://api.github.com/repos/yt-dlp/yt-dlp/releases/latest".to_string(),
        user_agent: "yt-dlp-proxy".to_string(),
    }
}

fn messages(d: &mut Downloader) -> Vec<String> {
    d.take_log_entries().into_iter().map(|e| e.message).collect()
}

#[test]
fn check_is_due_without_a_recorded_check() {
    assert!(is_check_due(&record("2024.01.01", None), at(0, 0)));
    assert!(is_check_due(&VersionInfo::default(), at(i64::MIN, 0)));
}

#[test]
fn check_is_due_only_after_more_than_a_day() {
    let info = record("v", Some(at(1_700_000_000, 500)));
    assert!(!is_check_due(&info, at(1_700_000_000, 500)));
    assert!(!is_check_due(&info, at(1_700_000_000 + DAY - 1, 999_999_999)));
    assert!(!is_check_due(&info, at(1_700_000_000 + DAY, 499)));
    assert!(!is_check_due(&info, at(1_700_000_000 + DAY, 500)));
    assert!(is_check_due(&info, at(1_700_000_000 + DAY, 501)));
    assert!(is_check_due(&info, at(1_700_000_000 + DAY + 1, 0)));
    assert!(is_check_due(&info, at(1_700_000_000 + 30 * DAY, 0)));
}

#[test]
fn check_is_not_due_when_the_clock_went_back() {
    let info = record("v", Some(at(1_700_000_000, 0)));
    assert!(!is_check_due(&info, at(1_600_000_000, 0)));
    assert!(!is_check_due(&info, at(i64::MIN, 0)));
}

#[test]
fn check_is_due_at_the_ends_of_the_range() {
    assert!(is_check_due(&record("v", Some(at(i64::MIN, 0))), at(i64::MAX, u32::MAX)));
    assert!(!is_check_due(&record("v", Some(at(i64::MAX, u32::MAX))), at(i64::MIN, 0)));
}

#[test]
fn should_check_goes_by_the_clock() {
    let d = downloader();
    assert!(d.should_check_for_updates(&VersionInfo::default()));
    assert!(d.should_check_for_updates(&record("v", Some(at(0, 0)))));
    assert!(!d.should_check_for_updates(&record("v", Some(at(i64::MAX, 0)))));
}

#[test]
fn default_record_is_blank() {
    assert_eq!(VersionInfo::default(), record("", None));
}

#[test]
fn downloader_knows_its_places() {
    let d = downloader();
    assert_eq!(d.get_executable_path(), "/opt/app/tools/yt-dlp.exe");
    assert_eq!(d.get_directory(), "/opt/app/tools");
    assert_eq!(d.get_version_path(), "/opt/app/tools/version.txt");
}

#[test]
fn directory_of_a_bare_file_name_is_empty() {
    let logger = Logger::with_config("logs.log".to_string(), LogConfig::default());
    let d = Downloader::new("yt-dlp.exe".to_string(), logger);
    assert_eq!(d.get_directory(), "");
    assert_eq!(d.get_version_path(), "version.txt");
}

#[test]
fn directory_of_a_root_is_the_current_directory() {
    let logger = Logger::with_config("logs.log".to_string(), LogConfig::default());
    let d = Downloader::new("/".to_string(), logger);
    assert_eq!(d.get_directory(), ".");
    assert_eq!(d.get_version_path(), "./version.txt");
}

#[test]
fn missing_executable_is_not_on_disk() {
    let logger = Logger::with_config("logs.log".to_string(), LogConfig::default());
    let d = Downloader::new("/nonexistent-dir-for-this-test/yt-dlp.exe".to_string(), logger);
    assert!(!d.executable_exists());
    let d = Downloader::new("/".to_string(), Logger::with_config(String::new(), LogConfig::default()));
    assert!(d.executable_exists());
}

#[test]
fn ensure_present_downloads_what_is_missing() {
    let logger = Logger::with_config("logs.log".to_string(), LogConfig::default());
    let mut d = Downloader::new("/nonexistent-dir-for-this-test/yt-dlp.exe".to_string(), logger);
    let (state, action) = d.ensure_present();
    assert_eq!(state, UpdateState::FetchingRelease);
    assert_eq!(action, fetch_release());
    assert_eq!(messages(&mut d), vec!["INFO: Starting yt-dlp download...".to_string()]);
}

#[test]
fn ensure_present_leaves_what_is_there() {
    let logger = Logger::with_config("logs.log".to_string(), LogConfig::default());
    let mut d = Downloader::new("/".to_string(), logger);
    let (state, action) = d.ensure_present();
    assert_eq!(state, UpdateState::Finished);
    assert_eq!(action, UpdateAction::Finish(Ok(())));
    assert_eq!(messages(&mut d), Vec::<String>::new());
}

#[test]
fn executable_that_is_there_needs_no_download() {
    let mut d = downloader();
    let (state, action) = d.ensure_present_given(true);
    assert_eq!(state, UpdateState::Finished);
    assert_eq!(action, UpdateAction::Finish(Ok(())));
    assert_eq!(messages(&mut d), Vec::<String>::new());
    assert_eq!(d.get_executable_path(), "/opt/app/tools/yt-dlp.exe");
}

#[test]
fn executable_that_is_missing_is_downloaded() {
    let mut d = downloader();
    let (state, action) = d.ensure_present_given(false);
    assert_eq!(state, UpdateState::FetchingRelease);
    assert_eq!(action, fetch_release());
    assert_eq!(messages(&mut d), vec!["INFO: Starting yt-dlp download...".to_string()]);
}

#[test]
fn check_begins_with_the_record() {
    let d = downloader();
    let (state, action) = d.check_and_update();
    assert_eq!(state, UpdateState::LoadingRecord);
    assert_eq!(action, UpdateAction::LoadRecord { path: "/opt/app/tools/version.txt".to_string() });
}

#[test]
fn download_begins_with_the_release() {
    let mut d = downloader();
    let (state, action) = d.download_latest();
    assert_eq!(state, UpdateState::FetchingRelease);
    assert_eq!(action, fetch_release());
    assert_eq!(messages(&mut d), vec!["INFO: Starting yt-dlp download...".to_string()]);
}

#[test]
fn fresh_record_ends_the_check_without_a_request() {
    let mut d = downloader();
    let now = at(1_700_000_000, 0);
    let loaded = record("2024.01.01", Some(at(1_700_000_000 - DAY + 1, 0)));
    let (state, action) =
        d.advance_at(UpdateState::LoadingRecord, UpdateEvent::RecordLoaded(Some(loaded)), now);
    assert_eq!(state, UpdateState::Finished);
    assert_eq!(action, UpdateAction::Finish(Ok(())));
    assert_eq!(messages(&mut d), Vec::<String>::new());
}

#[test]
fn record_of_exactly_one_day_is_still_fresh() {
    let mut d = downloader();
    let now = at(1_700_000_000, 7);
    let loaded = record("2024.01.01", Some(at(1_700_000_000 - DAY, 7)));
    let (state, action) =
        d.advance_at(UpdateState::LoadingRecord, UpdateEvent::RecordLoaded(Some(loaded)), now);
    assert_eq!(state, UpdateState::Finished);
    assert_eq!(action, UpdateAction::Finish(Ok(())));
}

#[test]
fn old_record_asks_for_the_latest_release() {
    let mut d = downloader();
    let now = at(1_700_000_000, 0);
    let loaded = record("2024.01.01", Some(at(1_700_000_000 - DAY - 1, 0)));
    let (state, action) = d.advance_at(
        UpdateState::LoadingRecord,
        UpdateEvent::RecordLoaded(Some(loaded.clone())),
        now,
    );
    assert_eq!(state, UpdateState::CheckingLatest { record: loaded });
    assert_eq!(action, fetch_release());
    assert_eq!(messages(&mut d), vec!["INFO: Checking for yt-dlp updates...".to_string()]);
}

#[test]
fn absent_record_is_treated_as_check_due() {
    let mut d = downloader();
    let (state, action) =
        d.advance_at(UpdateState::LoadingRecord, UpdateEvent::RecordLoaded(None), at(5, 0));
    assert_eq!(state, UpdateState::CheckingLatest { record: VersionInfo::default() });
    assert_eq!(action, fetch_release());
}

#[test]
fn same_tag_only_refreshes_the_time_of_the_check() {
    let mut d = downloader();
    let now = at(1_700_000_000, 42);
    let state = UpdateState::CheckingLatest { record: record("2024.01.01", Some(at(5, 0))) };
    let event = UpdateEvent::ReleaseFetched(release("2024.01.01", vec![]));
    let (state, action) = d.advance_at(state, event, now);
    assert_eq!(state, UpdateState::SavingRecord { downloaded: None });
    assert_eq!(
        action,
        UpdateAction::SaveRecord {
            path: "/opt/app/tools/version.txt".to_string(),
            record: record("2024.01.01", Some(now)),
        }
    );
    assert_eq!(messages(&mut d), vec!["INFO: yt-dlp is up to date: 2024.01.01".to_string()]);
    let (state, action) = d.advance_at(state, UpdateEvent::RecordSaved, at(1_700_000_001, 0));
    assert_eq!(state, UpdateState::Finished);
    assert_eq!(action, UpdateAction::Finish(Ok(())));
    assert_eq!(messages(&mut d), Vec::<String>::new());
}

#[test]
fn tags_are_compared_as_plain_text() {
    let mut d = downloader();
    let state = UpdateState::CheckingLatest { record: record("2024.1.1", None) };
    let event = UpdateEvent::ReleaseFetched(release("2024.01.01", vec![]));
    let (state, _) = d.advance_at(state, event, at(0, 0));
    assert_eq!(state, UpdateState::FetchingRelease);
    let state = UpdateState::CheckingLatest { record: record("2025.01.01", None) };
    let event = UpdateEvent::ReleaseFetched(release("2024.01.01", vec![]));
    let (state, _) = d.advance_at(state, event, at(0, 0));
    assert_eq!(state, UpdateState::FetchingRelease);
}

#[test]
fn other_tag_starts_a_download() {
    let mut d = downloader();
    let state = UpdateState::CheckingLatest { record: record("2024.01.01", None) };
    let event = UpdateEvent::ReleaseFetched(release("2024.02.02", vec![]));
    let (state, action) = d.advance_at(state, event, at(9, 9));
    assert_eq!(state, UpdateState::FetchingRelease);
    assert_eq!(action, fetch_release());
    assert_eq!(
        messages(&mut d),
        vec![
            "INFO: New version available: 2024.02.02 (current: 2024.01.01)".to_string(),
            "INFO: Starting yt-dlp download...".to_string(),
        ]
    );
}

#[test]
fn first_run_downloads_and_records_tag_and_time() {
    let mut d = downloader();
    let (state, action) = d.check_and_update();
    assert_eq!(action, UpdateAction::LoadRecord { path: "/opt/app/tools/version.txt".to_string() });
    let (state, action) = d.advance_at(state, UpdateEvent::RecordLoaded(None), at(100, 1));
    assert_eq!(action, fetch_release());
    let latest = release(
        "2024.03.10",
        vec![
            asset("yt-dlp", "https://dl/yt-dlp"),
            asset("yt-dlp.exe", "https://dl/yt-dlp.exe"),
            asset("yt-dlp.exe", "https://dl/second"),
        ],
    );
    let (state, action) =
        d.advance_at(state, UpdateEvent::ReleaseFetched(latest.clone()), at(101, 2));
    assert_eq!(state, UpdateState::FetchingRelease);
    assert_eq!(action, fetch_release());
    let (state, action) = d.advance_at(state, UpdateEvent::ReleaseFetched(latest), at(102, 3));
    assert_eq!(state, UpdateState::FetchingAsset { tag: "2024.03.10".to_string() });
    assert_eq!(action, UpdateAction::FetchAsset { url: "https://dl/yt-dlp.exe".to_string() });
    let bytes = vec![0x4d, 0x5a, 0x90, 0x00, 0xff];
    let (state, action) =
        d.advance_at(state, UpdateEvent::AssetFetched(bytes.clone()), at(103, 4));
    assert_eq!(state, UpdateState::WritingExecutable { tag: "2024.03.10".to_string() });
    assert_eq!(
        action,
        UpdateAction::WriteExecutable {
            staging: "/opt/app/tools/yt-dlp.exe.download".to_string(),
            path: "/opt/app/tools/yt-dlp.exe".to_string(),
            bytes,
        }
    );
    let (state, action) = d.advance_at(state, UpdateEvent::ExecutableWritten, at(104, 5));
    assert_eq!(state, UpdateState::SavingRecord { downloaded: Some("2024.03.10".to_string()) });
    assert_eq!(
        action,
        UpdateAction::SaveRecord {
            path: "/opt/app/tools/version.txt".to_string(),
            record: record("2024.03.10", Some(at(104, 5))),
        }
    );
    let (state, action) = d.advance_at(state, UpdateEvent::RecordSaved, at(105, 6));
    assert_eq!(state, UpdateState::Finished);
    assert_eq!(action, UpdateAction::Finish(Ok(())));
    assert_eq!(
        messages(&mut d),
        vec![
            "INFO: Checking for yt-dlp updates...".to_string(),
            "INFO: New version available: 2024.03.10 (current: )".to_string(),
            "INFO: Starting yt-dlp download...".to_string(),
            "INFO: Downloading from: https://dl/yt-dlp.exe".to_string(),
            "INFO: Successfully downloaded yt-dlp version: 2024.03.10".to_string(),
        ]
    );
}

#[test]
fn release_without_the_asset_is_a_download_error() {
    let mut d = downloader();
    let latest = release("2024.03.10", vec![asset("yt-dlp", "u"), asset("YT-DLP.EXE", "v")]);
    let (state, action) =
        d.advance_at(UpdateState::FetchingRelease, UpdateEvent::ReleaseFetched(latest), at(0, 0));
    assert_eq!(state, UpdateState::Finished);
    assert_eq!(
        action,
        UpdateAction::Finish(Err(AppError::Download(
            "Could not find yt-dlp.exe in release assets".to_string()
        )))
    );
    assert_eq!(messages(&mut d), Vec::<String>::new());
}

#[test]
fn failed_action_ends_the_update_with_its_error() {
    let states = vec![
        UpdateState::LoadingRecord,
        UpdateState::CheckingLatest { record: VersionInfo::default() },
        UpdateState::FetchingRelease,
        UpdateState::FetchingAsset { tag: "t".to_string() },
        UpdateState::WritingExecutable { tag: "t".to_string() },
        UpdateState::SavingRecord { downloaded: None },
    ];
    for state in states {
        let mut d = downloader();
        let error = AppError::NetworkError("unreachable".to_string());
        let (state, action) = d.advance_at(state, UpdateEvent::Failed(error.clone()), at(0, 0));
        assert_eq!(state, UpdateState::Finished);
        assert_eq!(action, UpdateAction::Finish(Err(error)));
    }
}

#[test]
fn stray_event_ends_the_update_with_an_error() {
    let stray = UpdateAction::Finish(Err(AppError::Download(
        "Update event out of order".to_string(),
    )));
    let mut d = downloader();
    let (state, action) =
        d.advance_at(UpdateState::LoadingRecord, UpdateEvent::RecordSaved, at(0, 0));
    assert_eq!(state, UpdateState::Finished);
    assert_eq!(action, stray);
    let (state, action) =
        d.advance_at(UpdateState::FetchingRelease, UpdateEvent::AssetFetched(vec![1]), at(0, 0));
    assert_eq!(state, UpdateState::Finished);
    assert_eq!(action, stray);
    let (state, action) = d.advance_at(UpdateState::Finished, UpdateEvent::RecordSaved, at(0, 0));
    assert_eq!(state, UpdateState::Finished);
    assert_eq!(action, stray);
    let failed = UpdateEvent::Failed(AppError::Io("late".to_string()));
    let (state, action) = d.advance_at(UpdateState::Finished, failed, at(0, 0));
    assert_eq!(state, UpdateState::Finished);
    assert_eq!(action, stray);
}

#[test]
fn advance_goes_by_the_clock() {
    let mut d = downloader();
    let loaded = record("v", Some(at(0, 0)));
    let (state, action) =
        d.advance(UpdateState::LoadingRecord, UpdateEvent::RecordLoaded(Some(loaded.clone())));
    assert_eq!(state, UpdateState::CheckingLatest { record: loaded });
    assert_eq!(action, fetch_release());
    let state = UpdateState::WritingExecutable { tag: "t".to_string() };
    let (_, action) = d.advance(state, UpdateEvent::ExecutableWritten);
    match action {
        UpdateAction::SaveRecord { path, record } => {
            assert_eq!(path, "/opt/app/tools/version.txt");
            assert_eq!(record.version, "t");
            let stamped = record.last_check.unwrap();
            assert!(stamped.secs > 1_600_000_000);
            assert!(stamped.nanos < 1_000_000_000);
        }
        other => panic!("unexpected action: {:?}", other),
    }
}

#[test]
fn first_asset_with_the_name_is_found() {
    let d = downloader();
    let latest = release(
        "t",
        vec![asset("a", "0"), asset("yt-dlp.exe", "1"), asset("yt-dlp.exe", "2")],
    );
    assert_eq!(d.find_windows_executable(&latest), Ok(&latest.assets[1]));
    assert_eq!(find_asset(&latest, &"a".to_string()), Some(&latest.assets[0]));
    assert_eq!(find_asset(&latest, &"b".to_string()), None);
    let empty = release("t", vec![]);
    assert_eq!(
        d.find_windows_executable(&empty),
        Err(AppError::Download("Could not find yt-dlp.exe in release assets".to_string()))
    );
}

#[test]
fn asset_name_can_be_set() {
    let d = downloader().with_executable_name("yt-dlp_linux".to_string());
    let latest = release("t", vec![asset("yt-dlp.exe", "1"), asset("yt-dlp_linux", "2")]);
    assert_eq!(d.find_windows_executable(&latest), Ok(&latest.assets[1]));
    assert_eq!(d.get_executable_path(), "/opt/app/tools/yt-dlp.exe");
    let none = release("t", vec![asset("yt-dlp.exe", "1")]);
    assert_eq!(
        d.find_windows_executable(&none),
        Err(AppError::Download("Could not find yt-dlp_linux in release assets".to_string()))
    );
}

#[test]
fn failure_is_absorbed_where_the_executable_is_there() {
    let mut d = downloader();
    let failed = Err(AppError::NetworkError("unreachable".to_string()));
    assert_eq!(d.settle(true, failed), Ok(()));
    assert_eq!(
        messages(&mut d),
        vec!["ERROR: Failed to check for updates: Network error: unreachable".to_string()]
    );
    assert_eq!(d.settle(true, Ok(())), Ok(()));
    assert_eq!(messages(&mut d), Vec::<String>::new());
}

#[test]
fn failure_is_fatal_where_the_executable_is_missing() {
    let mut d = downloader();
    let failed = Err(AppError::Download("none".to_string()));
    assert_eq!(d.settle(false, failed.clone()), failed);
    assert_eq!(d.settle(false, Ok(())), Ok(()));
    assert_eq!(messages(&mut d), Vec::<String>::new());
}

#[test]
fn directory_failure_is_recorded() {
    let mut d = downloader();
    d.report_directory_failure("read-only file system");
    assert_eq!(
        messages(&mut d),
        vec!["ERROR: Failed to create yt-dlp directory: read-only file system".to_string()]
    );
}
