use vstd::prelude::*;
use vstd::string::StringExecFns;

use crate::clock::current_time;
use crate::constants::defaults::UPDATE_CHECK_DAYS;
use crate::constants::{GITHUB_API_URL, VERSION_FILE_NAME, YT_DLP_EXECUTABLE};
use crate::error::{display_text, AppError, AppErrorText};
use crate::logger::{LogEntry, Logger};
use crate::models::{
    AssetText, GitHubAsset, GitHubRelease, ReleaseText, Timestamp, VersionInfo, VersionInfoText,
};
use crate::paths::{is_present, join, joined_path, parent, parent_of};

verus! {

/// Nanoseconds in one day.
pub const NANOS_PER_DAY: i64 = 86_400_000_000_000;

/// The name under which the release endpoint is asked.
pub const USER_AGENT: &'static str = "yt-dlp-proxy";

/// What is appended to the path of the executable to name the file that a
/// download is written to before it takes the executable's place.
pub const STAGING_SUFFIX: &'static str = ".download";

/// Whether the remote end has to be asked again: always where no check is
/// recorded, else once more than the check interval has passed since the last
/// one.
pub open spec fn check_due(last_check: Option<Timestamp>, now: Timestamp) -> bool {
    match last_check {
        None => true,
        Some(then) => now.as_nanos() - then.as_nanos() > UPDATE_CHECK_DAYS * NANOS_PER_DAY,
    }
}

/// The position of the first asset at or after `from` that is named `name`.
pub open spec fn first_named(assets: Seq<AssetText>, name: Seq<char>, from: int) -> Option<int>
    decreases assets.len() - from,
{
    if from < 0 || from >= assets.len() {
        None
    } else if assets[from].name == name {
        Some(from)
    } else {
        first_named(assets, name, from + 1)
    }
}

/// The asset that is found is the first one with the name, and none is found
/// only where no asset has the name.
pub proof fn lemma_first_named_is_first(assets: Seq<AssetText>, name: Seq<char>, from: int)
    requires
        0 <= from,
    ensures
        match first_named(assets, name, from) {
            Some(i) => {
                &&& from <= i < assets.len()
                &&& assets[i].name == name
                &&& forall|j: int| from <= j < i ==> assets[j].name != name
            },
            None => forall|j: int| from <= j < assets.len() ==> assets[j].name != name,
        },
    decreases assets.len() - from,
{
    if from < assets.len() && assets[from].name != name {
        lemma_first_named_is_first(assets, name, from + 1);
    }
}

/// The message of the error for a release that lacks the asset `name`.
pub open spec fn missing_asset_text(name: Seq<char>) -> Seq<char> {
    "Could not find "@ + name + " in release assets"@
}

/// The directory of the file at `path`: its parent, or `.` where it has none.
pub open spec fn directory_of(path: Seq<char>) -> Seq<char> {
    match parent_of(path) {
        Some(dir) => dir,
        None => "."@,
    }
}

/// The record of a first run.
pub open spec fn blank_record() -> VersionInfoText {
    VersionInfoText { version: Seq::empty(), last_check: None }
}

/// Where an update stands.
#[derive(Debug, PartialEq, Eq)]
pub enum UpdateState {
    /// The version record is being read.
    LoadingRecord,
    /// The latest release was asked for, to compare its tag with `record`.
    CheckingLatest { record: VersionInfo },
    /// The latest release was asked for, to download from it.
    FetchingRelease,
    /// The asset of the release tagged `tag` is being fetched.
    FetchingAsset { tag: String },
    /// The executable of the release tagged `tag` is being written.
    WritingExecutable { tag: String },
    /// The version record is being written; `downloaded` holds the tag of the
    /// release that was installed, if one was.
    SavingRecord { downloaded: Option<String> },
    /// The update has ended.
    Finished,
}

/// What came of the action that was asked for last.
#[derive(Debug, PartialEq, Eq)]
pub enum UpdateEvent {
    /// The version record was read. `None` stands for a first run: there is
    /// no record, or what is there cannot be read as one.
    RecordLoaded(Option<VersionInfo>),
    /// The remote end described its latest release.
    ReleaseFetched(GitHubRelease),
    /// The asset was fetched: these are its bytes.
    AssetFetched(Vec<u8>),
    /// The executable was written and stands in its place.
    ExecutableWritten,
    /// The version record was written.
    RecordSaved,
    /// The action failed.
    Failed(AppError),
}

/// What has to be done next for an update.
#[derive(Debug, PartialEq, Eq)]
pub enum UpdateAction {
    /// Read the version record at `path`.
    LoadRecord { path: String },
    /// Ask `url` for the latest release, under the name `user_agent`.
    FetchRelease { url: String, user_agent: String },
    /// Fetch the whole asset at `url` into memory.
    FetchAsset { url: String },
    /// Write `bytes` to the file at `staging`, then move that file to `path`,
    /// replacing what is there.
    WriteExecutable { staging: String, path: String, bytes: Vec<u8> },
    /// Write `record` to the file at `path`.
    SaveRecord { path: String, record: VersionInfo },
    /// Nothing more: the update ended with this result.
    Finish(Result<(), AppError>),
}

/// An update state over text.
pub enum UpdateStateText {
    LoadingRecord,
    CheckingLatest { record: VersionInfoText },
    FetchingRelease,
    FetchingAsset { tag: Seq<char> },
    WritingExecutable { tag: Seq<char> },
    SavingRecord { downloaded: Option<Seq<char>> },
    Finished,
}

/// An update event over text.
pub enum UpdateEventText {
    RecordLoaded(Option<VersionInfoText>),
    ReleaseFetched(ReleaseText),
    AssetFetched(Seq<u8>),
    ExecutableWritten,
    RecordSaved,
    Failed(AppErrorText),
}

/// An update action over text.
pub enum UpdateActionText {
    LoadRecord { path: Seq<char> },
    FetchRelease { url: Seq<char>, user_agent: Seq<char> },
    FetchAsset { url: Seq<char> },
    WriteExecutable { staging: Seq<char>, path: Seq<char>, bytes: Seq<u8> },
    SaveRecord { path: Seq<char>, record: VersionInfoText },
    Finish(Result<(), AppErrorText>),
}

impl View for UpdateState {
    type V = UpdateStateText;

    open spec fn view(&self) -> UpdateStateText {
        match *self {
            UpdateState::LoadingRecord => UpdateStateText::LoadingRecord,
            UpdateState::CheckingLatest { record } => UpdateStateText::CheckingLatest {
                record: record@,
            },
            UpdateState::FetchingRelease => UpdateStateText::FetchingRelease,
            UpdateState::FetchingAsset { tag } => UpdateStateText::FetchingAsset { tag: tag@ },
            UpdateState::WritingExecutable { tag } => UpdateStateText::WritingExecutable {
                tag: tag@,
            },
            UpdateState::SavingRecord { downloaded } => UpdateStateText::SavingRecord {
                downloaded: match downloaded {
                    Some(tag) => Some(tag@),
                    None => None,
                },
            },
            UpdateState::Finished => UpdateStateText::Finished,
        }
    }
}

impl View for UpdateEvent {
    type V = UpdateEventText;

    open spec fn view(&self) -> UpdateEventText {
        match *self {
            UpdateEvent::RecordLoaded(record) => UpdateEventText::RecordLoaded(
                match record {
                    Some(r) => Some(r@),
                    None => None,
                },
            ),
            UpdateEvent::ReleaseFetched(release) => UpdateEventText::ReleaseFetched(release@),
            UpdateEvent::AssetFetched(bytes) => UpdateEventText::AssetFetched(bytes@),
            UpdateEvent::ExecutableWritten => UpdateEventText::ExecutableWritten,
            UpdateEvent::RecordSaved => UpdateEventText::RecordSaved,
            UpdateEvent::Failed(error) => UpdateEventText::Failed(error@),
        }
    }
}

impl View for UpdateAction {
    type V = UpdateActionText;

    open spec fn view(&self) -> UpdateActionText {
        match *self {
            UpdateAction::LoadRecord { path } => UpdateActionText::LoadRecord { path: path@ },
            UpdateAction::FetchRelease { url, user_agent } => UpdateActionText::FetchRelease {
                url: url@,
                user_agent: user_agent@,
            },
            UpdateAction::FetchAsset { url } => UpdateActionText::FetchAsset { url: url@ },
            UpdateAction::WriteExecutable { staging, path, bytes } => {
                UpdateActionText::WriteExecutable { staging: staging@, path: path@, bytes: bytes@ }
            },
            UpdateAction::SaveRecord { path, record } => UpdateActionText::SaveRecord {
                path: path@,
                record: record@,
            },
            UpdateAction::Finish(result) => UpdateActionText::Finish(
                match result {
                    Ok(_) => Ok(()),
                    Err(error) => Err(error@),
                },
            ),
        }
    }
}

/// The places and the name that an update works with.
pub struct UpdateTarget {
    /// Path of the managed executable.
    pub executable: Seq<char>,
    /// Path of the version record.
    pub version_file: Seq<char>,
    /// Name of the release asset that holds the executable.
    pub asset_name: Seq<char>,
}

/// The request for the latest release.
pub open spec fn fetch_release() -> UpdateActionText {
    UpdateActionText::FetchRelease { url: GITHUB_API_URL@, user_agent: USER_AGENT@ }
}

/// The error for an event that does not answer what the update waits for.
pub open spec fn out_of_order() -> AppErrorText {
    AppErrorText::Download("Update event out of order"@)
}

/// The end of an update with `result`.
pub open spec fn finish(result: Result<(), AppErrorText>) -> (UpdateStateText, UpdateActionText) {
    (UpdateStateText::Finished, UpdateActionText::Finish(result))
}

/// One step of an update: the state that follows `state` on `event` at the
/// time `now`, and what has to be done next.
///
/// A record that was checked within the interval ends the update at once. A
/// due check asks for the latest release; if its tag differs from the recorded
/// version the release is downloaded, else only the time of the check is
/// recorded. A download asks for the release, fetches the asset that is named
/// as the executable, writes it, and records its tag and the time. A failed
/// action ends the update with its error.
pub open spec fn update_step(
    target: UpdateTarget,
    state: UpdateStateText,
    event: UpdateEventText,
    now: Timestamp,
) -> (UpdateStateText, UpdateActionText) {
    match (state, event) {
        (UpdateStateText::Finished, _) => finish(Err(out_of_order())),
        (_, UpdateEventText::Failed(error)) => finish(Err(error)),
        (UpdateStateText::LoadingRecord, UpdateEventText::RecordLoaded(loaded)) => {
            let record = match loaded {
                Some(r) => r,
                None => blank_record(),
            };
            if check_due(record.last_check, now) {
                (UpdateStateText::CheckingLatest { record }, fetch_release())
            } else {
                finish(Ok(()))
            }
        },
        (UpdateStateText::CheckingLatest { record }, UpdateEventText::ReleaseFetched(release)) => {
            if record.version != release.tag {
                (UpdateStateText::FetchingRelease, fetch_release())
            } else {
                (
                    UpdateStateText::SavingRecord { downloaded: None },
                    UpdateActionText::SaveRecord {
                        path: target.version_file,
                        record: VersionInfoText {
                            version: record.version,
                            last_check: Some(now),
                        },
                    },
                )
            }
        },
        (UpdateStateText::FetchingRelease, UpdateEventText::ReleaseFetched(release)) => {
            match first_named(release.assets, target.asset_name, 0) {
                Some(i) => (
                    UpdateStateText::FetchingAsset { tag: release.tag },
                    UpdateActionText::FetchAsset { url: release.assets[i].url },
                ),
                None => finish(
                    Err(AppErrorText::Download(missing_asset_text(target.asset_name))),
                ),
            }
        },
        (UpdateStateText::FetchingAsset { tag }, UpdateEventText::AssetFetched(bytes)) => (
            UpdateStateText::WritingExecutable { tag },
            UpdateActionText::WriteExecutable {
                staging: target.executable + STAGING_SUFFIX@,
                path: target.executable,
                bytes,
            },
        ),
        (UpdateStateText::WritingExecutable { tag }, UpdateEventText::ExecutableWritten) => (
            UpdateStateText::SavingRecord { downloaded: Some(tag) },
            UpdateActionText::SaveRecord {
                path: target.version_file,
                record: VersionInfoText { version: tag, last_check: Some(now) },
            },
        ),
        (UpdateStateText::SavingRecord { downloaded }, UpdateEventText::RecordSaved) => finish(
            Ok(()),
        ),
        _ => finish(Err(out_of_order())),
    }
}

/// What a step of an update reports to the log as information.
pub open spec fn update_notes(
    target: UpdateTarget,
    state: UpdateStateText,
    event: UpdateEventText,
    now: Timestamp,
) -> Seq<Seq<char>> {
    match (state, event) {
        (UpdateStateText::Finished, _) => Seq::empty(),
        (_, UpdateEventText::Failed(error)) => Seq::empty(),
        (UpdateStateText::LoadingRecord, UpdateEventText::RecordLoaded(loaded)) => {
            let record = match loaded {
                Some(r) => r,
                None => blank_record(),
            };
            if check_due(record.last_check, now) {
                seq!["Checking for yt-dlp updates..."@]
            } else {
                Seq::empty()
            }
        },
        (UpdateStateText::CheckingLatest { record }, UpdateEventText::ReleaseFetched(release)) => {
            if record.version != release.tag {
                seq![
                    "New version available: "@ + release.tag + " (current: "@ + record.version
                        + ")"@,
                    "Starting yt-dlp download..."@,
                ]
            } else {
                seq!["yt-dlp is up to date: "@ + record.version]
            }
        },
        (UpdateStateText::FetchingRelease, UpdateEventText::ReleaseFetched(release)) => {
            match first_named(release.assets, target.asset_name, 0) {
                Some(i) => seq!["Downloading from: "@ + release.assets[i].url],
                None => Seq::empty(),
            }
        },
        (UpdateStateText::SavingRecord { downloaded }, UpdateEventText::RecordSaved) => {
            match downloaded {
                Some(tag) => seq!["Successfully downloaded yt-dlp version: "@ + tag],
                None => Seq::empty(),
            }
        },
        _ => Seq::empty(),
    }
}

/// The state of an update after `events` were answered one by one, each at
/// its time, from `state` on.
pub open spec fn update_state_after(
    target: UpdateTarget,
    state: UpdateStateText,
    events: Seq<(UpdateEventText, Timestamp)>,
) -> UpdateStateText
    decreases events.len(),
{
    if events.len() == 0 {
        state
    } else {
        update_step(
            target,
            update_state_after(target, state, events.drop_last()),
            events.last().0,
            events.last().1,
        ).0
    }
}

/// The number of requests to the remote end that the update asked for while
/// `events` were answered one by one, from `state` on.
pub open spec fn requests_during(
    target: UpdateTarget,
    state: UpdateStateText,
    events: Seq<(UpdateEventText, Timestamp)>,
) -> nat
    decreases events.len(),
{
    if events.len() == 0 {
        0
    } else {
        let earlier = events.drop_last();
        let action = update_step(
            target,
            update_state_after(target, state, earlier),
            events.last().0,
            events.last().1,
        ).1;
        requests_during(target, state, earlier) + if action is FetchRelease
            || action is FetchAsset {
            1nat
        } else {
            0nat
        }
    }
}

/// A check that finds a record no older than the interval makes no request
/// to the remote end: it ends at once with success, and whatever is reported
/// to it afterwards, it stays ended and asks for nothing.
pub proof fn lemma_fresh_record_asks_nothing(
    target: UpdateTarget,
    record: VersionInfoText,
    then: Timestamp,
    events: Seq<(UpdateEventText, Timestamp)>,
)
    requires
        events.len() > 0,
        events[0].0 == UpdateEventText::RecordLoaded(Some(record)),
        record.last_check == Some(then),
        events[0].1.as_nanos() - then.as_nanos() <= UPDATE_CHECK_DAYS * NANOS_PER_DAY,
    ensures
        update_step(target, UpdateStateText::LoadingRecord, events[0].0, events[0].1) == finish(
            Ok(()),
        ),
        update_state_after(target, UpdateStateText::LoadingRecord, events)
            == UpdateStateText::Finished,
        requests_during(target, UpdateStateText::LoadingRecord, events) == 0,
    decreases events.len(),
{
    let earlier = events.drop_last();
    if earlier.len() > 0 {
        assert(earlier[0] == events[0]);
        lemma_fresh_record_asks_nothing(target, record, then, earlier);
    } else {
        assert(events.last() == events[0]);
        assert(requests_during(target, UpdateStateText::LoadingRecord, earlier) == 0);
    }
}

/// On a first run, where there is no record, the check is due: the latest
/// release is asked for.
pub proof fn lemma_first_run_checks(target: UpdateTarget, now: Timestamp)
    ensures
        update_step(
            target,
            UpdateStateText::LoadingRecord,
            UpdateEventText::RecordLoaded(None),
            now,
        ) == (UpdateStateText::CheckingLatest { record: blank_record() }, fetch_release()),
{
}

/// A download writes the bytes that were fetched, and none other, and then
/// records the tag of the release that they came from with the time of the
/// step.
pub proof fn lemma_download_records_what_it_wrote(
    target: UpdateTarget,
    tag: Seq<char>,
    bytes: Seq<u8>,
    now: Timestamp,
)
    ensures
        update_step(
            target,
            UpdateStateText::FetchingAsset { tag },
            UpdateEventText::AssetFetched(bytes),
            now,
        ) == (
            UpdateStateText::WritingExecutable { tag },
            UpdateActionText::WriteExecutable {
                staging: target.executable + STAGING_SUFFIX@,
                path: target.executable,
                bytes,
            },
        ),
        update_step(
            target,
            UpdateStateText::WritingExecutable { tag },
            UpdateEventText::ExecutableWritten,
            now,
        ) == (
            UpdateStateText::SavingRecord { downloaded: Some(tag) },
            UpdateActionText::SaveRecord {
                path: target.version_file,
                record: VersionInfoText { version: tag, last_check: Some(now) },
            },
        ),
{
}

/// An update ends exactly when it says so: the state that follows is
/// `Finished` if and only if the action is `Finish`.
pub proof fn lemma_update_ends_with_finish(
    target: UpdateTarget,
    state: UpdateStateText,
    event: UpdateEventText,
    now: Timestamp,
)
    ensures
        update_step(target, state, event, now).0 is Finished <==> update_step(
            target,
            state,
            event,
            now,
        ).1 is Finish,
{
}

/// Each note as the information message that the log holds for it.
pub open spec fn info_messages(notes: Seq<Seq<char>>) -> Seq<Seq<char>> {
    Seq::new(notes.len(), |i: int| "INFO: "@ + notes[i])
}

/// Whether a version record from `info` has to be checked against the remote
/// end at the time `now`.
pub fn is_check_due(info: &VersionInfo, now: Timestamp) -> (due: bool)
    ensures
        due == check_due(info.last_check, now),
{
    match info.last_check {
        None => true,
        Some(then) => {
            let secs: i128 = now.secs as i128 - then.secs as i128;
            let nanos: i128 = now.nanos as i128 - then.nanos as i128;
            let elapsed: i128 = secs * 1_000_000_000 + nanos;
            assert(UPDATE_CHECK_DAYS * NANOS_PER_DAY == 86_400_000_000_000);
            let interval: i128 = (UPDATE_CHECK_DAYS as i128) * (NANOS_PER_DAY as i128);
            elapsed > interval
        },
    }
}

/// The asset of `release` that is named `name`: the first one, where there
/// are several.
pub fn find_asset<'a>(release: &'a GitHubRelease, name: &String) -> (found: Option<
    &'a GitHubAsset,
>)
    ensures
        match first_named(release@.assets, name@, 0) {
            Some(i) => found == Some(&release.assets@[i]),
            None => found is None,
        },
{
    let mut i: usize = 0;
    while i < release.assets.len()
        invariant
            i <= release.assets.len(),
            first_named(release@.assets, name@, 0) == first_named(release@.assets, name@, i as int),
        decreases release.assets.len() - i,
    {
        if release.assets[i].name == *name {
            return Some(&release.assets[i]);
        }
        i += 1;
    }
    None
}

/// Keeps the managed executable present and current: holds where it lives,
/// decides when the remote end is asked, and leads an update step by step.
pub struct Downloader {
    exe_path: String,
    exe_dir: String,
    executable_name: String,
    logger: Logger,
}

impl Downloader {
    /// Path of the managed executable.
    pub closed spec fn executable(&self) -> Seq<char> {
        self.exe_path@
    }

    /// Directory that holds the executable and the version record.
    pub closed spec fn directory(&self) -> Seq<char> {
        self.exe_dir@
    }

    /// Name of the release asset that holds the executable.
    pub closed spec fn asset_name(&self) -> Seq<char> {
        self.executable_name@
    }

    /// The logger that the downloader reports to.
    pub closed spec fn logger(&self) -> Logger {
        self.logger
    }

    /// The places and the name that an update of this downloader works with.
    pub open spec fn target(&self) -> UpdateTarget {
        UpdateTarget {
            executable: self.executable(),
            version_file: joined_path(self.directory(), VERSION_FILE_NAME@),
            asset_name: self.asset_name(),
        }
    }

    /// Whether `next` is this downloader with nothing changed but what its
    /// logger holds, which has grown by `notes` as information messages.
    pub open spec fn reported(&self, next: &Downloader, notes: Seq<Seq<char>>) -> bool {
        &&& next.executable() == self.executable()
        &&& next.directory() == self.directory()
        &&& next.asset_name() == self.asset_name()
        &&& next.logger().path() == self.logger().path()
        &&& next.logger().limits() == self.logger().limits()
        &&& next.logger().messages() == self.logger().messages() + info_messages(notes)
    }

    /// A downloader for the executable at `exe_path`, which is looked for in
    /// releases under the name of the managed executable.
    pub fn new(exe_path: String, logger: Logger) -> (d: Self)
        ensures
            d.executable() == exe_path@,
            d.directory() == directory_of(exe_path@),
            d.asset_name() == YT_DLP_EXECUTABLE@,
            d.logger() == logger,
    {
        let exe_dir = match parent(exe_path.as_str()) {
            Some(dir) => dir,
            None => ".".to_owned(),
        };
        Downloader { exe_path, exe_dir, executable_name: YT_DLP_EXECUTABLE.to_owned(), logger }
    }

    /// The same downloader, looking for the executable in releases under
    /// `name`.
    pub fn with_executable_name(self, name: String) -> (d: Self)
        ensures
            d.executable() == self.executable(),
            d.directory() == self.directory(),
            d.asset_name() == name@,
            d.logger() == self.logger(),
    {
        Downloader {
            exe_path: self.exe_path,
            exe_dir: self.exe_dir,
            executable_name: name,
            logger: self.logger,
        }
    }

    /// Path of the managed executable.
    pub fn get_executable_path(&self) -> (path: String)
        ensures
            path@ == self.executable(),
    {
        self.exe_path.clone()
    }

    /// Directory that holds the executable and the version record.
    pub fn get_directory(&self) -> (path: String)
        ensures
            path@ == self.directory(),
    {
        self.exe_dir.clone()
    }

    /// Path of the version record.
    pub fn get_version_path(&self) -> (path: String)
        ensures
            path@ == self.target().version_file,
    {
        join(self.exe_dir.as_str(), VERSION_FILE_NAME)
    }

    /// Whether the managed executable is on disk. The answer is the disk's.
    pub fn executable_exists(&self) -> (present: bool) {
        is_present(self.exe_path.as_str())
    }

    /// Records that the directory of the executable could not be created.
    pub fn report_directory_failure(&mut self, reason: &str)
        ensures
            final(self).executable() == old(self).executable(),
            final(self).directory() == old(self).directory(),
            final(self).asset_name() == old(self).asset_name(),
            final(self).logger().path() == old(self).logger().path(),
            final(self).logger().limits() == old(self).logger().limits(),
            final(self).logger().messages() == old(self).logger().messages().push(
                "ERROR: "@ + ("Failed to create yt-dlp directory: "@ + reason@),
            ),
    {
        let mut message = "Failed to create yt-dlp directory: ".to_owned();
        message.append(reason);
        self.logger.log_error(message.as_str());
    }

    /// Hands out what the logger holds, oldest first, and empties it.
    pub fn take_log_entries(&mut self) -> (taken: Vec<LogEntry>)
        ensures
            final(self).executable() == old(self).executable(),
            final(self).directory() == old(self).directory(),
            final(self).asset_name() == old(self).asset_name(),
            final(self).logger().path() == old(self).logger().path(),
            final(self).logger().limits() == old(self).logger().limits(),
            final(self).logger().messages() == Seq::<Seq<char>>::empty(),
            taken@.len() == old(self).logger().messages().len(),
            forall|i: int|
                0 <= i < taken@.len() ==> taken@[i].message@ == old(self).logger().messages()[i],
    {
        self.logger.take_entries()
    }

    /// The asset of `release` that holds the managed executable: the first
    /// one that bears its name. Fails with a download error if and only if no
    /// asset bears the name.
    pub fn find_windows_executable<'a>(&self, release: &'a GitHubRelease) -> (found: Result<
        &'a GitHubAsset,
        AppError,
    >)
        ensures
            match first_named(release@.assets, self.asset_name(), 0) {
                Some(i) => found == Ok::<&GitHubAsset, AppError>(&release.assets@[i]),
                None => found is Err && found->Err_0@ == AppErrorText::Download(
                    missing_asset_text(self.asset_name()),
                ),
            },
    {
        match find_asset(release, &self.executable_name) {
            Some(asset) => Ok(asset),
            None => Err(AppError::Download(missing_asset_message(&self.executable_name))),
        }
    }

    /// Whether the remote end has to be asked now, going by the clock: yes
    /// where `info` records no check, else according to the time that the
    /// clock gave.
    pub fn should_check_for_updates(&self, info: &VersionInfo) -> (due: bool)
        ensures
            exists|now: Timestamp| due == #[trigger] check_due(info.last_check, now),
            info.last_check is None ==> due,
    {
        let now = current_time();
        let due = is_check_due(info, now);
        due
    }

    /// Begins what keeps the executable present: looks for it on disk and
    /// goes on as [`Downloader::ensure_present_given`] does with the answer.
    pub fn ensure_present(&mut self) -> (next: (UpdateState, UpdateAction))
        ensures
            (next.0@, next.1@) == finish(Ok(())) && *final(self) == *old(self) || {
                &&& next.0@ == UpdateStateText::FetchingRelease
                &&& next.1@ == fetch_release()
                &&& old(self).reported(final(self), seq!["Starting yt-dlp download..."@])
            },
    {
        let present = self.executable_exists();
        self.ensure_present_given(present)
    }

    /// Begins what keeps the executable present, given whether it is on disk
    /// (`present`): where it is, there is nothing to do and nothing changes;
    /// where it is not, a download of the latest release begins.
    pub fn ensure_present_given(&mut self, present: bool) -> (next: (UpdateState, UpdateAction))
        ensures
            present ==> (next.0@, next.1@) == finish(Ok(())) && *final(self) == *old(self),
            !present ==> {
                &&& next.0@ == UpdateStateText::FetchingRelease
                &&& next.1@ == fetch_release()
                &&& old(self).reported(final(self), seq!["Starting yt-dlp download..."@])
            },
    {
        if present {
            (UpdateState::Finished, UpdateAction::Finish(Ok(())))
        } else {
            self.download_latest()
        }
    }

    /// Begins a check for a newer release: the version record is read first.
    pub fn check_and_update(&self) -> (next: (UpdateState, UpdateAction))
        ensures
            next.0@ == UpdateStateText::LoadingRecord,
            next.1@ == (UpdateActionText::LoadRecord { path: self.target().version_file }),
    {
        (UpdateState::LoadingRecord, UpdateAction::LoadRecord { path: self.get_version_path() })
    }

    /// Begins a download of the latest release: the remote end is asked to
    /// describe it.
    pub fn download_latest(&mut self) -> (next: (UpdateState, UpdateAction))
        ensures
            next.0@ == UpdateStateText::FetchingRelease,
            next.1@ == fetch_release(),
            old(self).reported(final(self), seq!["Starting yt-dlp download..."@]),
    {
        self.logger.log_info("Starting yt-dlp download...");
        assert(self.logger.messages() == old(self).logger().messages() + info_messages(
            seq!["Starting yt-dlp download..."@],
        ));
        (UpdateState::FetchingRelease, request_release())
    }

    /// Takes one step of an update at the time that the clock gives: see
    /// [`Downloader::advance_at`].
    pub fn advance(&mut self, state: UpdateState, event: UpdateEvent) -> (next: (
        UpdateState,
        UpdateAction,
    ))
        ensures
            exists|now: Timestamp|
                {
                    &&& (next.0@, next.1@) == #[trigger] update_step(
                        old(self).target(),
                        state@,
                        event@,
                        now,
                    )
                    &&& old(self).reported(
                        final(self),
                        update_notes(old(self).target(), state@, event@, now),
                    )
                },
    {
        let now = current_time();
        self.advance_at(state, event, now)
    }

    /// Takes one step of an update at the time `now`: answers `event`, which
    /// came of the action that `state` waits for, with the state that follows
    /// and the action to take next, and reports to the log.
    pub fn advance_at(&mut self, state: UpdateState, event: UpdateEvent, now: Timestamp) -> (next: (
        UpdateState,
        UpdateAction,
    ))
        ensures
            (next.0@, next.1@) == update_step(old(self).target(), state@, event@, now),
            old(self).reported(final(self), update_notes(old(self).target(), state@, event@, now)),
    {
        let ghost before = self.logger.messages();
        match (state, event) {
            (UpdateState::Finished, _) => (
                UpdateState::Finished,
                UpdateAction::Finish(Err(out_of_order_error())),
            ),
            (_, UpdateEvent::Failed(error)) => (
                UpdateState::Finished,
                UpdateAction::Finish(Err(error)),
            ),
            (UpdateState::LoadingRecord, UpdateEvent::RecordLoaded(loaded)) => {
                let record = match loaded {
                    Some(r) => r,
                    None => VersionInfo::default(),
                };
                if is_check_due(&record, now) {
                    self.logger.log_info("Checking for yt-dlp updates...");
                    assert(self.logger.messages() == before + info_messages(
                        seq!["Checking for yt-dlp updates..."@],
                    ));
                    (UpdateState::CheckingLatest { record }, request_release())
                } else {
                    (UpdateState::Finished, UpdateAction::Finish(Ok(())))
                }
            },
            (UpdateState::CheckingLatest { record }, UpdateEvent::ReleaseFetched(release)) => {
                if !(record.version == release.tag_name) {
                    let mut note = "New version available: ".to_owned();
                    note.append(release.tag_name.as_str());
                    note.append(" (current: ");
                    note.append(record.version.as_str());
                    note.append(")");
                    self.logger.log_info(note.as_str());
                    self.logger.log_info("Starting yt-dlp download...");
                    assert(self.logger.messages() == before + info_messages(
                        seq![
                            "New version available: "@ + release.tag_name@ + " (current: "@
                                + record.version@ + ")"@,
                            "Starting yt-dlp download..."@,
                        ],
                    ));
                    (UpdateState::FetchingRelease, request_release())
                } else {
                    let mut note = "yt-dlp is up to date: ".to_owned();
                    note.append(record.version.as_str());
                    self.logger.log_info(note.as_str());
                    assert(self.logger.messages() == before + info_messages(
                        seq!["yt-dlp is up to date: "@ + record.version@],
                    ));
                    let refreshed = VersionInfo { version: record.version, last_check: Some(now) };
                    (
                        UpdateState::SavingRecord { downloaded: None },
                        UpdateAction::SaveRecord {
                            path: self.get_version_path(),
                            record: refreshed,
                        },
                    )
                }
            },
            (UpdateState::FetchingRelease, UpdateEvent::ReleaseFetched(release)) => {
                match find_asset(&release, &self.executable_name) {
                    Some(asset) => {
                        proof {
                            lemma_first_named_is_first(release@.assets, self.executable_name@, 0);
                        }
                        let url = asset.browser_download_url.clone();
                        let mut note = "Downloading from: ".to_owned();
                        note.append(url.as_str());
                        self.logger.log_info(note.as_str());
                        assert(self.logger.messages() == before + info_messages(
                            seq!["Downloading from: "@ + url@],
                        ));
                        (
                            UpdateState::FetchingAsset { tag: release.tag_name },
                            UpdateAction::FetchAsset { url },
                        )
                    },
                    None => (
                        UpdateState::Finished,
                        UpdateAction::Finish(
                            Err(AppError::Download(missing_asset_message(&self.executable_name))),
                        ),
                    ),
                }
            },
            (UpdateState::FetchingAsset { tag }, UpdateEvent::AssetFetched(bytes)) => {
                let mut staging = self.exe_path.clone();
                staging.append(STAGING_SUFFIX);
                (
                    UpdateState::WritingExecutable { tag },
                    UpdateAction::WriteExecutable { staging, path: self.exe_path.clone(), bytes },
                )
            },
            (UpdateState::WritingExecutable { tag }, UpdateEvent::ExecutableWritten) => {
                let record = VersionInfo { version: tag.clone(), last_check: Some(now) };
                (
                    UpdateState::SavingRecord { downloaded: Some(tag) },
                    UpdateAction::SaveRecord { path: self.get_version_path(), record },
                )
            },
            (UpdateState::SavingRecord { downloaded }, UpdateEvent::RecordSaved) => {
                match downloaded {
                    Some(tag) => {
                        let mut note = "Successfully downloaded yt-dlp version: ".to_owned();
                        note.append(tag.as_str());
                        self.logger.log_info(note.as_str());
                        assert(self.logger.messages() == before + info_messages(
                            seq!["Successfully downloaded yt-dlp version: "@ + tag@],
                        ));
                    },
                    None => {},
                }
                (UpdateState::Finished, UpdateAction::Finish(Ok(())))
            },
            _ => (UpdateState::Finished, UpdateAction::Finish(Err(out_of_order_error()))),
        }
    }

    /// Settles how an update ended. Where the executable was on disk before
    /// the update, a failure is recorded as an error and the outcome is
    /// success: the executable that is there is used. Where it was not, the
    /// outcome stands.
    pub fn settle(&mut self, binary_present: bool, outcome: Result<(), AppError>) -> (settled:
        Result<(), AppError>)
        ensures
            final(self).executable() == old(self).executable(),
            final(self).directory() == old(self).directory(),
            final(self).asset_name() == old(self).asset_name(),
            final(self).logger().path() == old(self).logger().path(),
            final(self).logger().limits() == old(self).logger().limits(),
            binary_present ==> settled is Ok,
            !binary_present ==> settled == outcome,
            final(self).logger().messages() == old(self).logger().messages() + (match outcome {
                Err(error) if binary_present => seq![
                    "ERROR: "@ + ("Failed to check for updates: "@ + display_text(error@)),
                ],
                _ => Seq::<Seq<char>>::empty(),
            }),
    {
        if binary_present {
            match outcome {
                Err(error) => {
                    let mut message = "Failed to check for updates: ".to_owned();
                    message.append(error.to_message().as_str());
                    self.logger.log_error(message.as_str());
                    Ok(())
                },
                Ok(_) => Ok(()),
            }
        } else {
            outcome
        }
    }
}

/// The request for the latest release.
fn request_release() -> (action: UpdateAction)
    ensures
        action@ == fetch_release(),
{
    UpdateAction::FetchRelease { url: GITHUB_API_URL.to_owned(), user_agent: USER_AGENT.to_owned() }
}

/// The error for an event that does not answer what the update waits for.
fn out_of_order_error() -> (error: AppError)
    ensures
        error@ == out_of_order(),
{
    AppError::Download("Update event out of order".to_owned())
}

/// The message of the error for a release that lacks the asset `name`.
fn missing_asset_message(name: &String) -> (message: String)
    ensures
        message@ == missing_asset_text(name@),
{
    let mut message = "Could not find ".to_owned();
    message.append(name.as_str());
    message.append(" in release assets");
    message
}

} // verus!
