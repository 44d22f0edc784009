use vstd::prelude::*;
use vstd::string::StringExecFns;

use crate::clock::{local_time_text, LOG_TIME_PATTERN};
use crate::models::LoggingConfig;
use crate::paths::{file_name, file_name_of, path_with_file_name, with_file_name};
use crate::text::{decimal_text, unsigned_decimal};

verus! {

/// Limits that govern the rotation of the log file.
#[derive(Debug, Clone, Copy, PartialEq, Eq, Structural)]
pub struct LogConfig {
    /// Size of the log file, in bytes, above which it is rotated.
    pub max_file_size: u64,
    /// Number of rotated log files that are kept.
    pub max_archived_logs: u32,
}

impl Default for LogConfig {
    /// Ten mebibytes and five rotated files.
    fn default() -> (r: Self)
        ensures
            r.max_file_size == 10 * 1024 * 1024,
            r.max_archived_logs == 5,
    {
        LogConfig { max_file_size: 10 * 1024 * 1024, max_archived_logs: 5 }
    }
}

impl<'a> From<&'a LoggingConfig> for LogConfig {
    /// Takes the limits of a configuration, the size converted from
    /// mebibytes to bytes.
    fn from(config: &'a LoggingConfig) -> (r: Self) {
        let mebibytes: u64 = config.max_file_size_mb as u64;
        LogConfig {
            max_file_size: mebibytes * 1024 * 1024,
            max_archived_logs: config.max_archived_logs,
        }
    }
}

impl<'a> vstd::std_specs::convert::FromSpecImpl<&'a LoggingConfig> for LogConfig {
    open spec fn obeys_from_spec() -> bool {
        true
    }

    open spec fn from_spec(config: &'a LoggingConfig) -> Self {
        LogConfig {
            max_file_size: (config.max_file_size_mb * 1024 * 1024) as u64,
            max_archived_logs: config.max_archived_logs,
        }
    }
}

/// One message with the local time at which it was recorded.
#[derive(Debug, Clone, PartialEq, Eq)]
pub struct LogEntry {
    /// The local time of the entry, as text.
    pub timestamp: String,
    /// The message.
    pub message: String,
}

/// The line that stands in the log file for an entry.
pub open spec fn entry_line(timestamp: Seq<char>, message: Seq<char>) -> Seq<char> {
    seq!['['] + timestamp + seq![']', ' '] + message + seq!['\n']
}

impl LogEntry {
    /// The line that is written to the log file: the time in square
    /// brackets, a space, the message, and a line feed.
    pub fn render(&self) -> (line: String)
        ensures
            line@ == entry_line(self.timestamp@, self.message@),
    {
        proof {
            reveal_strlit("[");
            reveal_strlit("] ");
            reveal_strlit("\n");
        }
        let mut line = "[".to_owned();
        line.append(self.timestamp.as_str());
        line.append("] ");
        line.append(self.message.as_str());
        line.append("\n");
        line
    }
}

/// One file operation of a rotation. Each is carried out only where the file
/// that it removes or renames is there.
#[derive(Debug, Clone, PartialEq, Eq)]
pub enum RotationStep {
    /// Remove the file at `path`.
    Remove { path: String },
    /// Rename the file at `from` to `to`.
    Rename { from: String, to: String },
}

/// A rotation step over the text of its paths.
pub enum RotationStepText {
    Remove { path: Seq<char> },
    Rename { from: Seq<char>, to: Seq<char> },
}

impl View for RotationStep {
    type V = RotationStepText;

    open spec fn view(&self) -> RotationStepText {
        match *self {
            RotationStep::Remove { path } => RotationStepText::Remove { path: path@ },
            RotationStep::Rename { from, to } => RotationStepText::Rename { from: from@, to: to@ },
        }
    }
}

/// The view of each step of a sequence.
pub open spec fn step_texts(steps: Seq<RotationStep>) -> Seq<RotationStepText> {
    Seq::new(steps.len(), |i: int| steps[i]@)
}

/// The file name under which the log is archived: its own file name, or
/// `log.log` where the path has none, then a dot and the index.
pub open spec fn archived_name(path: Seq<char>, index: nat) -> Seq<char> {
    (match file_name_of(path) {
        Some(name) => name,
        None => "log.log"@,
    }) + seq!['.'] + decimal_text(index as int)
}

/// The path of the archived log with the given index: the path of the log
/// with its file name replaced by the archived name.
pub open spec fn archived_path(path: Seq<char>, index: nat) -> Seq<char> {
    path_with_file_name(path, archived_name(path, index))
}

/// The steps of a rotation that keeps `max` archived logs: the oldest archive
/// is removed, each archive from `max - 1` down to 1 moves up by one, and the
/// log itself becomes archive 1.
pub open spec fn rotation_steps(path: Seq<char>, max: nat) -> Seq<RotationStepText> {
    seq![RotationStepText::Remove { path: archived_path(path, max) }] + Seq::new(
        if max >= 1 {
            (max - 1) as nat
        } else {
            0
        },
        |k: int|
            RotationStepText::Rename {
                from: archived_path(path, (max - 1 - k) as nat),
                to: archived_path(path, (max - k) as nat),
            },
    ) + seq![RotationStepText::Rename { from: path, to: archived_path(path, 1) }]
}

/// The message that opens a log file after a rotation.
pub const ROTATION_NOTICE: &'static str = "Log rotated due to size limit";

/// Collects the messages of one run, each with its time, until they are
/// written to the log file, and decides when and how that file is rotated.
pub struct Logger {
    log_path: String,
    config: LogConfig,
    entries: Vec<LogEntry>,
}

impl Logger {
    /// The path of the log file.
    pub closed spec fn path(&self) -> Seq<char> {
        self.log_path@
    }

    /// The limits that govern rotation.
    pub closed spec fn limits(&self) -> LogConfig {
        self.config
    }

    /// The messages recorded and not yet handed out, oldest first.
    pub closed spec fn messages(&self) -> Seq<Seq<char>> {
        Seq::new(self.entries@.len(), |i: int| self.entries@[i].message@)
    }

    /// A logger for the file at `log_path`, with nothing recorded.
    pub fn with_config(log_path: String, config: LogConfig) -> (logger: Self)
        ensures
            logger.path() == log_path@,
            logger.limits() == config,
            logger.messages() == Seq::<Seq<char>>::empty(),
    {
        let logger = Logger { log_path, config, entries: Vec::new() };
        logger
    }

    /// The path of the log file.
    pub fn get_log_path(&self) -> (path: String)
        ensures
            path@ == self.path(),
    {
        self.log_path.clone()
    }

    /// Records `message` with the current local time.
    pub fn log(&mut self, message: &str)
        ensures
            final(self).path() == old(self).path(),
            final(self).limits() == old(self).limits(),
            final(self).messages() == old(self).messages().push(message@),
    {
        let timestamp = local_time_text(LOG_TIME_PATTERN);
        self.entries.push(LogEntry { timestamp, message: message.to_owned() });
    }

    /// Records an error.
    pub fn log_error(&mut self, error: &str)
        ensures
            final(self).path() == old(self).path(),
            final(self).limits() == old(self).limits(),
            final(self).messages() == old(self).messages().push("ERROR: "@ + error@),
    {
        let mut message = "ERROR: ".to_owned();
        message.append(error);
        self.log(message.as_str());
    }

    /// Records a piece of information.
    pub fn log_info(&mut self, info: &str)
        ensures
            final(self).path() == old(self).path(),
            final(self).limits() == old(self).limits(),
            final(self).messages() == old(self).messages().push("INFO: "@ + info@),
    {
        let mut message = "INFO: ".to_owned();
        message.append(info);
        self.log(message.as_str());
    }

    /// Records a debug message.
    pub fn log_debug(&mut self, debug: &str)
        ensures
            final(self).path() == old(self).path(),
            final(self).limits() == old(self).limits(),
            final(self).messages() == old(self).messages().push("DEBUG: "@ + debug@),
    {
        let mut message = "DEBUG: ".to_owned();
        message.append(debug);
        self.log(message.as_str());
    }

    /// Records a warning.
    pub fn log_warning(&mut self, warning: &str)
        ensures
            final(self).path() == old(self).path(),
            final(self).limits() == old(self).limits(),
            final(self).messages() == old(self).messages().push("WARNING: "@ + warning@),
    {
        let mut message = "WARNING: ".to_owned();
        message.append(warning);
        self.log(message.as_str());
    }

    /// Hands out the recorded entries, oldest first, and forgets them.
    pub fn take_entries(&mut self) -> (taken: Vec<LogEntry>)
        ensures
            final(self).path() == old(self).path(),
            final(self).limits() == old(self).limits(),
            final(self).messages() == Seq::<Seq<char>>::empty(),
            taken@.len() == old(self).messages().len(),
            forall|i: int| 0 <= i < taken@.len() ==> taken@[i].message@ == old(self).messages()[i],
    {
        let mut taken: Vec<LogEntry> = Vec::new();
        std::mem::swap(&mut self.entries, &mut taken);
        taken
    }

    /// Whether a log file of `current_size` bytes has to be rotated before
    /// the next entry is written: it has, once it is larger than the limit.
    pub fn needs_rotation(&self, current_size: u64) -> (r: bool)
        ensures
            r == (current_size > self.limits().max_file_size),
    {
        current_size > self.config.max_file_size
    }

    /// The path of the archived log with the given index.
    pub fn get_archived_log_path(&self, index: u32) -> (r: String)
        ensures
            r@ == archived_path(self.path(), index as nat),
    {
        let mut name = match file_name(self.log_path.as_str()) {
            Some(name) => name,
            None => "log.log".to_owned(),
        };
        proof {
            reveal_strlit(".");
        }
        name.append(".");
        let digits = unsigned_decimal(index as u64);
        name.append(digits.as_str());
        assert(name@ =~= archived_name(self.path(), index as nat));
        with_file_name(self.log_path.as_str(), name.as_str())
    }

    /// The file operations of one rotation, in the order in which they are
    /// carried out.
    pub fn rotation_plan(&self) -> (steps: Vec<RotationStep>)
        ensures
            step_texts(steps@) == rotation_steps(
                self.path(),
                self.limits().max_archived_logs as nat,
            ),
    {
        let max: u32 = self.config.max_archived_logs;
        let ghost path = self.path();
        let ghost wanted = rotation_steps(path, max as nat);
        let mut steps: Vec<RotationStep> = Vec::new();
        steps.push(RotationStep::Remove { path: self.get_archived_log_path(max) });
        let mut i: u32 = if max >= 1 {
            max - 1
        } else {
            0
        };
        while i >= 1
            invariant
                path == self.path(),
                max == self.config.max_archived_logs,
                wanted == rotation_steps(path, max as nat),
                i < max || (i == 0 && max == 0),
                max >= 1 ==> steps@.len() == max - i,
                max == 0 ==> steps@.len() == 1,
                step_texts(steps@) == wanted.take(steps@.len() as int),
            decreases i,
        {
            let from = self.get_archived_log_path(i);
            let to = self.get_archived_log_path(i + 1);
            steps.push(RotationStep::Rename { from, to });
            i -= 1;
        }
        let ghost before = step_texts(steps@);
        let to = self.get_archived_log_path(1);
        steps.push(RotationStep::Rename { from: self.log_path.clone(), to });
        assert(step_texts(steps@) =~= before.push(wanted[wanted.len() - 1]));
        steps
    }

    /// The entry that opens the log file after a rotation.
    pub fn rotation_notice(&self) -> (entry: LogEntry)
        ensures
            entry.message@ == ROTATION_NOTICE@,
    {
        LogEntry {
            timestamp: local_time_text(LOG_TIME_PATTERN),
            message: ROTATION_NOTICE.to_owned(),
        }
    }
}

/// One archived log file that was found on disk.
#[derive(Debug, Clone, PartialEq, Eq)]
pub struct ArchivedLogInfo {
    /// Path of the archived file.
    pub path: String,
    /// Its size in bytes.
    pub size: u64,
    /// Its index: 1 is the youngest archive.
    pub index: u32,
}

/// What is known of the log file and of its archives.
#[derive(Debug, Clone, PartialEq, Eq)]
pub struct LogInfo {
    /// Path of the log file.
    pub current_log_path: String,
    /// Size of the log file in bytes.
    pub current_size: u64,
    /// Size above which the log file is rotated.
    pub max_size: u64,
    /// The archives that were found, youngest first.
    pub archived_logs: Vec<ArchivedLogInfo>,
}

/// An archived log over the text of its path.
pub struct ArchivedLogText {
    pub path: Seq<char>,
    pub size: u64,
    pub index: u32,
}

impl View for ArchivedLogInfo {
    type V = ArchivedLogText;

    open spec fn view(&self) -> ArchivedLogText {
        ArchivedLogText { path: self.path@, size: self.size, index: self.index }
    }
}

/// The view of each archive of a sequence.
pub open spec fn archive_texts(archives: Seq<ArchivedLogInfo>) -> Seq<ArchivedLogText> {
    Seq::new(archives.len(), |i: int| archives[i]@)
}

/// The archives with an index of at most `upto` that were found, youngest
/// first, where `sizes[i - 1]` holds the size of archive `i` if it was found.
pub open spec fn found_archives(path: Seq<char>, sizes: Seq<Option<u64>>, upto: nat) -> Seq<
    ArchivedLogText,
>
    decreases upto,
{
    if upto == 0 || upto > sizes.len() || upto > u32::MAX {
        Seq::empty()
    } else {
        let younger = found_archives(path, sizes, (upto - 1) as nat);
        match sizes[upto - 1] {
            Some(size) => younger.push(
                ArchivedLogText { path: archived_path(path, upto), size, index: upto as u32 },
            ),
            None => younger,
        }
    }
}

/// The smaller of two numbers.
pub open spec fn lesser(a: nat, b: nat) -> nat {
    if a <= b {
        a
    } else {
        b
    }
}

impl LogInfo {
    /// Whether the log file has reached four fifths of the size at which it
    /// is rotated, the fifths rounded down to whole bytes.
    pub fn is_near_rotation(&self) -> (near: bool)
        ensures
            near == (self.current_size >= (self.max_size * 4) / 5),
    {
        let threshold: u64 = self.max_size / 5 * 4 + (self.max_size % 5) * 4 / 5;
        self.current_size >= threshold
    }
}

impl Logger {
    /// The paths of the archives that a logger with these limits keeps, from
    /// index 1 up.
    pub fn archive_paths(&self) -> (list: Vec<String>)
        ensures
            list@.len() == self.limits().max_archived_logs,
            forall|i: int|
                0 <= i < list@.len() ==> list@[i]@ == archived_path(self.path(), (i + 1) as nat),
    {
        let max: u32 = self.config.max_archived_logs;
        let mut list: Vec<String> = Vec::new();
        let mut i: u32 = 0;
        while i < max
            invariant
                i <= max,
                max == self.config.max_archived_logs,
                list@.len() == i,
                forall|k: int|
                    0 <= k < list@.len() ==> list@[k]@ == archived_path(
                        self.path(),
                        (k + 1) as nat,
                    ),
            decreases max - i,
        {
            i += 1;
            list.push(self.get_archived_log_path(i));
        }
        list
    }

    /// Gathers what is known of the log file and its archives, given the
    /// size of the log file and, in `archived_sizes`, the size of each archive
    /// that was found: that of archive 1 first. Archives beyond the number that
    /// is kept are left out.
    pub fn get_log_info(&self, current_size: u64, archived_sizes: &[Option<u64>]) -> (info: LogInfo)
        ensures
            info.current_log_path@ == self.path(),
            info.current_size == current_size,
            info.max_size == self.limits().max_file_size,
            archive_texts(info.archived_logs@) == found_archives(
                self.path(),
                archived_sizes@,
                lesser(archived_sizes@.len(), self.limits().max_archived_logs as nat),
            ),
    {
        let max: u32 = self.config.max_archived_logs;
        let mut archived_logs: Vec<ArchivedLogInfo> = Vec::new();
        let mut i: u32 = 0;
        while i < max && (i as usize) < archived_sizes.len()
            invariant
                i <= max,
                i <= archived_sizes@.len(),
                max == self.config.max_archived_logs,
                archive_texts(archived_logs@) == found_archives(
                    self.path(),
                    archived_sizes@,
                    i as nat,
                ),
            decreases max - i,
        {
            let slot = archived_sizes[i as usize];
            i += 1;
            match slot {
                Some(size) => {
                    let path = self.get_archived_log_path(i);
                    archived_logs.push(ArchivedLogInfo { path, size, index: i });
                },
                None => {},
            }
        }
        LogInfo {
            current_log_path: self.log_path.clone(),
            current_size,
            max_size: self.config.max_file_size,
            archived_logs,
        }
    }
}

} // verus!
