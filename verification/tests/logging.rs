use yt_dlp_proxy::logger::{
    ArchivedLogInfo, LogConfig, LogEntry, LogInfo, Logger, RotationStep, ROTATION_NOTICE,
};
use yt_dlp_proxy::models::LoggingConfig;

fn logger(path: &str, max_file_size: u64, max_archived_logs: u32) -> Logger {
    Logger::with_config(path.to_string(), LogConfig { max_file_size, max_archived_logs })
}

fn remove(path: &str) -> RotationStep {
    RotationStep::Remove { path: path.to_string() }
}

fn rename(from: &str, to: &str) -> RotationStep {
    RotationStep::Rename { from: from.to_string(), to: to.to_string() }
}

fn info(current_size: u64, max_size: u64) -> LogInfo {
    LogInfo {
        current_log_path: "logs.log".to_string(),
        current_size,
        max_size,
        archived_logs: vec![],
    }
}

#[test]
fn default_limits_are_ten_mebibytes_and_five_archives() {
    assert_eq!(LogConfig::default(), LogConfig { max_file_size: 10_485_760, max_archived_logs: 5 });
}

#[test]
fn limits_are_taken_from_the_configuration_in_bytes() {
    let config = LoggingConfig { max_file_size_mb: 3, max_archived_logs: 7, debug_enabled: true };
    assert_eq!(LogConfig::from(&config), LogConfig { max_file_size: 3_145_728, max_archived_logs: 7 });
    let config = LoggingConfig { max_file_size_mb: 0, max_archived_logs: 0, debug_enabled: false };
    assert_eq!(LogConfig::from(&config), LogConfig { max_file_size: 0, max_archived_logs: 0 });
    let config =
        LoggingConfig { max_file_size_mb: u32::MAX, max_archived_logs: 1, debug_enabled: false };
    assert_eq!(
        LogConfig::from(&config),
        LogConfig { max_file_size: 4_503_599_626_321_920, max_archived_logs: 1 }
    );
    assert_eq!(LogConfig::from(&LoggingConfig::default()), LogConfig::default());
}

#[test]
fn messages_are_recorded_in_order_with_their_level() {
    let mut log = logger("logs.log", 100, 2);
    log.log("plain");
    log.log_error("e");
    log.log_info("i");
    log.log_debug("d");
    log.log_warning("w");
    log.log_info("");
    let entries = log.take_entries();
    let messages: Vec<&str> = entries.iter().map(|e| e.message.as_str()).collect();
    assert_eq!(messages, vec!["plain", "ERROR: e", "INFO: i", "DEBUG: d", "WARNING: w", "INFO: "]);
    assert!(log.take_entries().is_empty());
}

#[test]
fn entries_carry_the_local_time() {
    let mut log = logger("logs.log", 100, 2);
    log.log("x");
    let entries = log.take_entries();
    let stamp = entries[0].timestamp.as_bytes();
    assert_eq!(stamp.len(), "2024-01-02 03:04:05.678".len());
    assert_eq!(stamp[4], b'-');
    assert_eq!(stamp[7], b'-');
    assert_eq!(stamp[10], b' ');
    assert_eq!(stamp[13], b':');
    assert_eq!(stamp[16], b':');
    assert_eq!(stamp[19], b'.');
}

#[test]
fn entry_is_written_as_one_line() {
    let entry = LogEntry {
        timestamp: "2024-01-02 03:04:05.678".to_string(),
        message: "INFO: started".to_string(),
    };
    assert_eq!(entry.render(), "[2024-01-02 03:04:05.678] INFO: started\n");
    let entry = LogEntry { timestamp: String::new(), message: String::new() };
    assert_eq!(entry.render(), "[] \n");
}

#[test]
fn rotation_is_needed_above_the_limit_only() {
    let log = logger("logs.log", 100, 2);
    assert!(!log.needs_rotation(0));
    assert!(!log.needs_rotation(99));
    assert!(!log.needs_rotation(100));
    assert!(log.needs_rotation(101));
    assert!(log.needs_rotation(u64::MAX));
    assert!(!logger("logs.log", u64::MAX, 2).needs_rotation(u64::MAX));
}

#[test]
fn archive_is_named_after_the_log_with_its_index() {
    let log = logger("/var/log/app/logs.log", 100, 5);
    assert_eq!(log.get_archived_log_path(1), "/var/log/app/logs.log.1");
    assert_eq!(log.get_archived_log_path(12), "/var/log/app/logs.log.12");
    assert_eq!(log.get_archived_log_path(0), "/var/log/app/logs.log.0");
    assert_eq!(log.get_archived_log_path(u32::MAX), "/var/log/app/logs.log.4294967295");
    assert_eq!(logger("logs.log", 1, 1).get_archived_log_path(3), "logs.log.3");
    assert_eq!(logger("dir/logs.log/", 1, 1).get_archived_log_path(3), "dir/logs.log.3");
}

#[test]
fn archive_of_a_path_without_file_name_is_called_log_log() {
    assert_eq!(logger("/", 1, 1).get_archived_log_path(2), "/log.log.2");
    assert_eq!(logger("", 1, 1).get_archived_log_path(2), "log.log.2");
    assert_eq!(logger("..", 1, 1).get_archived_log_path(2), "../log.log.2");
}

#[test]
fn rotation_shifts_every_archive_up_by_one() {
    let log = logger("/l/logs.log", 100, 3);
    assert_eq!(
        log.rotation_plan(),
        vec![
            remove("/l/logs.log.3"),
            rename("/l/logs.log.2", "/l/logs.log.3"),
            rename("/l/logs.log.1", "/l/logs.log.2"),
            rename("/l/logs.log", "/l/logs.log.1"),
        ]
    );
}

#[test]
fn rotation_with_one_or_no_archive() {
    let log = logger("/l/logs.log", 100, 1);
    assert_eq!(
        log.rotation_plan(),
        vec![remove("/l/logs.log.1"), rename("/l/logs.log", "/l/logs.log.1")]
    );
    let log = logger("/l/logs.log", 100, 0);
    assert_eq!(
        log.rotation_plan(),
        vec![remove("/l/logs.log.0"), rename("/l/logs.log", "/l/logs.log.1")]
    );
}

#[test]
fn rotation_notice_says_why() {
    assert_eq!(ROTATION_NOTICE, "Log rotated due to size limit");
    let notice = logger("logs.log", 1, 1).rotation_notice();
    assert_eq!(notice.message, "Log rotated due to size limit");
    assert_eq!(notice.timestamp.len(), 23);
}

#[test]
fn archive_paths_run_from_one_to_the_limit() {
    let log = logger("/l/logs.log", 100, 3);
    assert_eq!(log.archive_paths(), vec!["/l/logs.log.1", "/l/logs.log.2", "/l/logs.log.3"]);
    assert!(logger("/l/logs.log", 100, 0).archive_paths().is_empty());
}

#[test]
fn log_info_lists_the_archives_that_were_found() {
    let log = logger("/l/logs.log", 1000, 4);
    let found = log.get_log_info(812, &[Some(1001), None, Some(0), None]);
    assert_eq!(
        found,
        LogInfo {
            current_log_path: "/l/logs.log".to_string(),
            current_size: 812,
            max_size: 1000,
            archived_logs: vec![
                ArchivedLogInfo { path: "/l/logs.log.1".to_string(), size: 1001, index: 1 },
                ArchivedLogInfo { path: "/l/logs.log.3".to_string(), size: 0, index: 3 },
            ],
        }
    );
}

#[test]
fn log_info_looks_at_no_more_archives_than_are_kept() {
    let log = logger("/l/logs.log", 1000, 2);
    let found = log.get_log_info(0, &[Some(1), Some(2), Some(3)]);
    assert_eq!(
        found.archived_logs,
        vec![
            ArchivedLogInfo { path: "/l/logs.log.1".to_string(), size: 1, index: 1 },
            ArchivedLogInfo { path: "/l/logs.log.2".to_string(), size: 2, index: 2 },
        ]
    );
    let found = log.get_log_info(0, &[Some(1)]);
    assert_eq!(found.archived_logs.len(), 1);
    assert!(log.get_log_info(0, &[]).archived_logs.is_empty());
    assert!(logger("/l/logs.log", 1000, 0).get_log_info(0, &[Some(1)]).archived_logs.is_empty());
}

#[test]
fn near_rotation_begins_at_four_fifths_of_the_limit() {
    assert!(!info(7, 10).is_near_rotation());
    assert!(info(8, 10).is_near_rotation());
    assert!(info(11, 10).is_near_rotation());
    assert!(!info(8_388_607, 10_485_760).is_near_rotation());
    assert!(info(8_388_608, 10_485_760).is_near_rotation());
}

#[test]
fn near_rotation_rounds_the_threshold_down() {
    assert!(!info(4, 7).is_near_rotation());
    assert!(info(5, 7).is_near_rotation());
    assert!(info(0, 1).is_near_rotation());
    assert!(info(0, 0).is_near_rotation());
    assert!(!info(0, 2).is_near_rotation());
    assert!(info(1, 2).is_near_rotation());
    assert!(!info(14_757_395_258_967_641_291, u64::MAX).is_near_rotation());
    assert!(info(14_757_395_258_967_641_292, u64::MAX).is_near_rotation());
}
