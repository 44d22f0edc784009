//! The process table, and the search in it for a running copy of the managed
//! executable.

use vstd::prelude::*;

use crate::constants::YT_DLP_EXECUTABLE;
use crate::paths::{file_name, file_name_of};
use crate::text::{ascii_lowercase, to_ascii_lowercase};

verus! {

/// `sysinfo::System`: a snapshot of the machine. Nothing inside it is
/// visible here.
#[verifier::external_type_specification]
#[verifier::external_body]
pub struct ExSystem(sysinfo::System);

/// `sysinfo::System::new` makes a snapshot with nothing loaded.
pub assume_specification[ sysinfo::System::new ]() -> (system: sysinfo::System);

/// `sysinfo::System::refresh_processes` loads the processes that run now.
/// Which those are is the machine's affair, so nothing is claimed of the
/// snapshot.
pub assume_specification[ sysinfo::System::refresh_processes ](system: &mut sysinfo::System);

/// One running process, as the process table describes it.
#[derive(Debug, Clone, PartialEq, Eq)]
pub struct ProcessEntry {
    /// Identifier of the process.
    pub pid: u32,
    /// Name of the process.
    pub name: String,
    /// Path of the image that the process runs, where it is known.
    pub exe_path: Option<String>,
}

/// A process over the text of its name and path.
pub struct ProcessEntryText {
    pub pid: u32,
    pub name: Seq<char>,
    pub exe_path: Option<Seq<char>>,
}

impl View for ProcessEntry {
    type V = ProcessEntryText;

    open spec fn view(&self) -> ProcessEntryText {
        ProcessEntryText {
            pid: self.pid,
            name: self.name@,
            exe_path: match self.exe_path {
                Some(path) => Some(path@),
                None => None,
            },
        }
    }
}

/// The view of each process of a sequence.
pub open spec fn entry_texts(entries: Seq<ProcessEntry>) -> Seq<ProcessEntryText> {
    Seq::new(entries.len(), |i: int| entries[i]@)
}

/// Hands out the processes of a snapshot, as `sysinfo::System::processes`
/// holds them: of each its `pid`, its `name` and its `exe`. They come in no
/// order that could be relied on, and which they are is the machine's affair,
/// so nothing is claimed of the list.
#[verifier::external_body]
fn processes_of(system: &sysinfo::System) -> (entries: Vec<ProcessEntry>) {
    system.processes().values().map(|process| ProcessEntry {
        pid: process.pid().as_u32(),
        name: process.name().to_string(),
        exe_path: process.exe().map(|path| path.to_string_lossy().into_owned()),
    }).collect()
}

/// The file name by which copies of the executable at `path` are known: its
/// last component, or the managed executable's name where it has none, in
/// lower case.
pub open spec fn target_name(path: Seq<char>) -> Seq<char> {
    ascii_lowercase(
        match file_name_of(path) {
            Some(name) => name,
            None => YT_DLP_EXECUTABLE@,
        },
    )
}

/// Whether the image of `entry` has the file name `target`, letter case
/// aside.
pub open spec fn image_matches(entry: ProcessEntryText, target: Seq<char>) -> bool {
    match entry.exe_path {
        Some(path) => match file_name_of(path) {
            Some(name) => ascii_lowercase(name) == target,
            None => false,
        },
        None => false,
    }
}

/// Whether `entry` is a running copy of the executable known as `target`: a
/// process other than the one that asks, whose image file name or whose name
/// equals `target`, letter case aside.
pub open spec fn is_copy(entry: ProcessEntryText, target: Seq<char>, self_pid: u32) -> bool {
    entry.pid != self_pid && (image_matches(entry, target) || ascii_lowercase(entry.name)
        == target)
}

/// Whether some process of `entries` is a running copy.
pub open spec fn has_copy(
    entries: Seq<ProcessEntryText>,
    target: Seq<char>,
    self_pid: u32,
) -> bool {
    exists|i: int| 0 <= i < entries.len() && is_copy(#[trigger] entries[i], target, self_pid)
}

/// The processes that run now.
pub fn running_processes() -> (entries: Vec<ProcessEntry>) {
    let mut system = sysinfo::System::new();
    system.refresh_processes();
    processes_of(&system)
}

/// The file name by which copies of the executable at `path` are known.
pub fn target_file_name(path: &str) -> (target: String)
    ensures
        target@ == target_name(path@),
{
    match file_name(path) {
        Some(name) => to_ascii_lowercase(name.as_str()),
        None => to_ascii_lowercase(YT_DLP_EXECUTABLE),
    }
}

/// Whether `entry` is a running copy of the executable known as `target`.
pub fn is_running_copy(entry: &ProcessEntry, target: &String, self_pid: u32) -> (copy: bool)
    ensures
        copy == is_copy(entry@, target@, self_pid),
{
    if entry.pid == self_pid {
        return false;
    }
    match &entry.exe_path {
        Some(path) => {
            match file_name(path.as_str()) {
                Some(name) => {
                    let lower = to_ascii_lowercase(name.as_str());
                    if lower == *target {
                        return true;
                    }
                },
                None => {},
            }
        },
        None => {},
    }
    let lower = to_ascii_lowercase(entry.name.as_str());
    lower == *target
}

/// Whether a copy of the executable at `target_path` runs among `processes`,
/// the process `self_pid` left aside.
pub fn find_running_copy(processes: &Vec<ProcessEntry>, target_path: &str, self_pid: u32) -> (found:
    bool)
    ensures
        found == has_copy(entry_texts(processes@), target_name(target_path@), self_pid),
{
    let target = target_file_name(target_path);
    let ghost entries = entry_texts(processes@);
    let mut i: usize = 0;
    while i < processes.len()
        invariant
            i <= processes.len(),
            entries == entry_texts(processes@),
            target@ == target_name(target_path@),
            forall|j: int| 0 <= j < i ==> !is_copy(#[trigger] entries[j], target@, self_pid),
        decreases processes.len() - i,
    {
        if is_running_copy(&processes[i], &target, self_pid) {
            assert(is_copy(entries[i as int], target@, self_pid));
            return true;
        }
        i += 1;
    }
    false
}

} // verus!
