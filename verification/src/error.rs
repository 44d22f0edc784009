use vstd::prelude::*;
use vstd::string::StringExecFns;

verus! {

/// What is known of how the tool ended, where running it failed.
#[derive(Debug, Clone, Copy, PartialEq, Eq, Structural)]
pub enum ExecutionStatus {
    /// The tool ended without success, with this exit code.
    ExitCode(i32),
    /// The tool ended without success and without an exit code: a signal
    /// ended it, or its status is unknown.
    NoExitCode,
    /// The tool ran out of time and was terminated.
    TimedOut,
    /// The end of the tool was not observed: it could not be started, or
    /// looking at it failed.
    Unobserved,
}

/// What can go wrong while the managed tool is kept current and run.
#[derive(Debug, Clone, PartialEq, Eq)]
pub enum AppError {
    /// A file operation failed, for a reason other than the two below.
    Io(String),
    /// The transport to the remote end failed, other than by a failed
    /// connection or a timeout.
    Reqwest(String),
    /// Data was malformed.
    Serde(String),
    /// The release offers no asset for the managed executable.
    Download(String),
    /// The tool could not be started, failed, or ran out of time: the
    /// message, and what is known of how the tool ended.
    Execution(String, ExecutionStatus),
    /// The configuration could not be read or written.
    Config(String),
    /// A file is missing.
    FileNotFound(String),
    /// A file operation was refused.
    PermissionDenied(String),
    /// The remote end could not be reached, or did not answer in time.
    NetworkError(String),
}

/// An error over the text of its message.
pub enum AppErrorText {
    Io(Seq<char>),
    Reqwest(Seq<char>),
    Serde(Seq<char>),
    Download(Seq<char>),
    Execution(Seq<char>, ExecutionStatus),
    Config(Seq<char>),
    FileNotFound(Seq<char>),
    PermissionDenied(Seq<char>),
    NetworkError(Seq<char>),
}

impl View for AppError {
    type V = AppErrorText;

    open spec fn view(&self) -> AppErrorText {
        match *self {
            AppError::Io(m) => AppErrorText::Io(m@),
            AppError::Reqwest(m) => AppErrorText::Reqwest(m@),
            AppError::Serde(m) => AppErrorText::Serde(m@),
            AppError::Download(m) => AppErrorText::Download(m@),
            AppError::Execution(m, status) => AppErrorText::Execution(m@, status),
            AppError::Config(m) => AppErrorText::Config(m@),
            AppError::FileNotFound(m) => AppErrorText::FileNotFound(m@),
            AppError::PermissionDenied(m) => AppErrorText::PermissionDenied(m@),
            AppError::NetworkError(m) => AppErrorText::NetworkError(m@),
        }
    }
}

/// The kinds of failed file operation that are told apart.
#[derive(Debug, Clone, Copy, PartialEq, Eq, Structural)]
pub enum IoErrorKind {
    /// The file or directory is not there.
    NotFound,
    /// The operation was refused.
    PermissionDenied,
    /// Any other failure.
    Other,
}

/// The text that is shown for an error: what kind it is, then its message.
pub open spec fn display_text(error: AppErrorText) -> Seq<char> {
    match error {
        AppErrorText::Io(m) => "IO error: "@ + m,
        AppErrorText::Reqwest(m) => "HTTP request error: "@ + m,
        AppErrorText::Serde(m) => "JSON serialization error: "@ + m,
        AppErrorText::Download(m) => "Download error: "@ + m,
        AppErrorText::Execution(m, status) => "Execution error: "@ + m,
        AppErrorText::Config(m) => "Configuration error: "@ + m,
        AppErrorText::FileNotFound(m) => "File not found: "@ + m,
        AppErrorText::PermissionDenied(m) => "Permission denied: "@ + m,
        AppErrorText::NetworkError(m) => "Network error: "@ + m,
    }
}

/// The error that a failed file operation becomes.
pub open spec fn io_error(kind: IoErrorKind, message: Seq<char>) -> AppErrorText {
    match kind {
        IoErrorKind::NotFound => AppErrorText::FileNotFound(message),
        IoErrorKind::PermissionDenied => AppErrorText::PermissionDenied(message),
        IoErrorKind::Other => AppErrorText::Io(message),
    }
}

/// The error that a failed transfer becomes.
pub open spec fn transport_error(
    is_connect: bool,
    is_timeout: bool,
    message: Seq<char>,
) -> AppErrorText {
    if is_connect || is_timeout {
        AppErrorText::NetworkError(message)
    } else {
        AppErrorText::Reqwest(message)
    }
}

impl AppError {
    /// The text that is shown for the error.
    pub fn to_message(&self) -> (text: String)
        ensures
            text@ == display_text(self@),
    {
        let (label, message) = match self {
            AppError::Io(m) => ("IO error: ", m),
            AppError::Reqwest(m) => ("HTTP request error: ", m),
            AppError::Serde(m) => ("JSON serialization error: ", m),
            AppError::Download(m) => ("Download error: ", m),
            AppError::Execution(m, _) => ("Execution error: ", m),
            AppError::Config(m) => ("Configuration error: ", m),
            AppError::FileNotFound(m) => ("File not found: ", m),
            AppError::PermissionDenied(m) => ("Permission denied: ", m),
            AppError::NetworkError(m) => ("Network error: ", m),
        };
        let mut text = label.to_owned();
        text.append(message.as_str());
        text
    }

    /// Classifies a failed file operation: a missing file and a refused
    /// operation have kinds of their own, every other failure is an IO error.
    pub fn from_io(kind: IoErrorKind, message: String) -> (error: AppError)
        ensures
            error@ == io_error(kind, message@),
    {
        match kind {
            IoErrorKind::NotFound => AppError::FileNotFound(message),
            IoErrorKind::PermissionDenied => AppError::PermissionDenied(message),
            IoErrorKind::Other => AppError::Io(message),
        }
    }

    /// Classifies a failed transfer: a failed connection and a timeout are
    /// network errors, every other failure is a request error.
    pub fn from_transport(is_connect: bool, is_timeout: bool, message: String) -> (error: AppError)
        ensures
            error@ == transport_error(is_connect, is_timeout, message@),
    {
        if is_connect || is_timeout {
            AppError::NetworkError(message)
        } else {
            AppError::Reqwest(message)
        }
    }

    /// The error for malformed data.
    pub fn from_json(message: String) -> (error: AppError)
        ensures
            error@ == AppErrorText::Serde(message@),
    {
        AppError::Serde(message)
    }
}

} // verus!
