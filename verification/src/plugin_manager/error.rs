//! Errors of module discovery.

use vstd::prelude::*;
use vstd::string::StringExecFns;

verus! {

/// `std::io::Error`, carried as the cause of a failed directory scan.
#[verifier::external_type_specification]
#[verifier::external_body]
pub struct ExIoError(std::io::Error);

/// `wasmtime::Error`, carried as the cause of a failed load or call.
#[verifier::external_type_specification]
#[verifier::external_body]
pub struct ExWasmtimeError(wasmtime::Error);

/// What went wrong while modules were discovered.
#[derive(Debug)]
#[allow(inconsistent_fields)]
pub enum PluginManagerError {
    /// The directory to scan is missing or cannot be read.
    DirectoryError { message: String, source: Option<std::io::Error> },
    /// The file at `path` is not a well-formed module.
    LoadError { path: String, message: String, source: wasmtime::Error },
    /// A module declares neither of the two known interfaces.
    UnknownKindError { message: String },
    /// The engine could not be set up, or a module could not be instantiated
    /// or called in it.
    SandboxError { message: String, source: wasmtime::Error },
    /// The lock around a shared registry is poisoned.
    LockError { message: String },
}

/// The mathematical value of a [`PluginManagerError`]. A cause stands for
/// itself.
#[allow(inconsistent_fields)]
pub enum PluginManagerErrorView {
    DirectoryError { message: Seq<char>, source: Option<std::io::Error> },
    LoadError { path: Seq<char>, message: Seq<char>, source: wasmtime::Error },
    UnknownKindError { message: Seq<char> },
    SandboxError { message: Seq<char>, source: wasmtime::Error },
    LockError { message: Seq<char> },
}

impl View for PluginManagerError {
    type V = PluginManagerErrorView;

    open spec fn view(&self) -> PluginManagerErrorView {
        match self {
            PluginManagerError::DirectoryError { message, source } => {
                PluginManagerErrorView::DirectoryError { message: message@, source: *source }
            },
            PluginManagerError::LoadError { path, message, source } => {
                PluginManagerErrorView::LoadError {
                    path: path@,
                    message: message@,
                    source: *source,
                }
            },
            PluginManagerError::UnknownKindError { message } => {
                PluginManagerErrorView::UnknownKindError { message: message@ }
            },
            PluginManagerError::SandboxError { message, source } => {
                PluginManagerErrorView::SandboxError { message: message@, source: *source }
            },
            PluginManagerError::LockError { message } => PluginManagerErrorView::LockError {
                message: message@,
            },
        }
    }
}

/// Whether `text` is what `error` shows of itself when it is written out.
pub open spec fn shows_io_error(error: std::io::Error, text: Seq<char>) -> bool {
    exists|shown: String|
        shown@ == text && #[trigger] vstd::string::to_string_from_display_ensures::<std::io::Error>(
            &error,
            shown,
        )
}

/// Whether `text` is what `error` shows of itself when it is written out.
pub open spec fn shows_wasmtime_error(error: wasmtime::Error, text: Seq<char>) -> bool {
    exists|shown: String|
        shown@ == text && #[trigger] vstd::string::to_string_from_display_ensures::<
            wasmtime::Error,
        >(&error, shown)
}

/// Whether `failure` is the directory error for the cause `cause`: it
/// carries the cause, and its message is the cause's own text.
pub open spec fn is_directory_error(failure: PluginManagerErrorView, cause: std::io::Error)
    -> bool {
    failure matches PluginManagerErrorView::DirectoryError { message, source } && source == Some(
        cause,
    ) && shows_io_error(cause, message)
}

/// Whether `failure` is the directory error for a directory `dir` that
/// could not be listed: it carries the cause, and its message names the
/// directory before the cause's own text.
pub open spec fn is_listing_error(
    failure: PluginManagerErrorView,
    dir: Seq<char>,
    cause: std::io::Error,
) -> bool {
    failure matches PluginManagerErrorView::DirectoryError { message, source } && source == Some(
        cause,
    ) && exists|text: Seq<char>| #[trigger]
        shows_io_error(cause, text) && message == "Failed to read plugin directory "@ + dir
            + ": "@ + text
}

/// Whether `failure` is the load error for the file at `path` and the cause
/// `cause`: it carries both, and its message is the cause's own text.
pub open spec fn is_load_error(
    failure: PluginManagerErrorView,
    path: Seq<char>,
    cause: wasmtime::Error,
) -> bool {
    failure matches PluginManagerErrorView::LoadError { path: at, message, source } && at == path
        && source == cause && shows_wasmtime_error(cause, message)
}

/// Whether `failure` is the sandbox error for the cause `cause`: it carries
/// the cause, and its message is the cause's own text.
pub open spec fn is_sandbox_error(failure: PluginManagerErrorView, cause: wasmtime::Error)
    -> bool {
    failure matches PluginManagerErrorView::SandboxError { message, source } && source == cause
        && shows_wasmtime_error(cause, message)
}

/// The text that a [`PluginManagerError`] shows to a reader: its kind, then
/// its message; a load error names the file between the two.
pub open spec fn plugin_manager_error_text(error: PluginManagerErrorView) -> Seq<char> {
    match error {
        PluginManagerErrorView::DirectoryError { message, source } => "Directory error: "@
            + message,
        PluginManagerErrorView::LoadError { path, message, source } => "Load error: "@ + path
            + ": "@ + message,
        PluginManagerErrorView::UnknownKindError { message } => "Unknown kind error: "@ + message,
        PluginManagerErrorView::SandboxError { message, source } => "Sandbox error: "@ + message,
        PluginManagerErrorView::LockError { message } => "Lock error: "@ + message,
    }
}

impl PluginManagerError {
    /// The load error for the file at `path` that could not be compiled:
    /// the message is the text of `error`, which stays as the cause.
    pub fn from_load(path: &str, error: wasmtime::Error) -> (result: PluginManagerError)
        ensures
            is_load_error(result@, path@, error),
    {
        let message = error.to_string();
        PluginManagerError::LoadError { path: String::from_str(path), message, source: error }
    }

    /// The text of the error.
    pub fn to_string(&self) -> (text: String)
        ensures
            text@ == plugin_manager_error_text(self@),
    {
        match self {
            PluginManagerError::DirectoryError { message, source } => String::from_str(
                "Directory error: ",
            ).concat(message.as_str()),
            PluginManagerError::LoadError { path, message, source } => String::from_str(
                "Load error: ",
            ).concat(path.as_str()).concat(": ").concat(message.as_str()),
            PluginManagerError::UnknownKindError { message } => String::from_str(
                "Unknown kind error: ",
            ).concat(message.as_str()),
            PluginManagerError::SandboxError { message, source } => String::from_str(
                "Sandbox error: ",
            ).concat(message.as_str()),
            PluginManagerError::LockError { message } => String::from_str("Lock error: ").concat(
                message.as_str(),
            ),
        }
    }

    /// The directory error for a failed read: the message is the text of
    /// `error`, which stays as the cause.
    pub fn from_io(error: std::io::Error) -> (result: PluginManagerError)
        ensures
            is_directory_error(result@, error),
    {
        let message = error.to_string();
        PluginManagerError::DirectoryError { message, source: Some(error) }
    }

    /// The sandbox error for a failure inside the engine: the message is the
    /// text of `error`, which stays as the cause.
    pub fn from_wasmtime(error: wasmtime::Error) -> (result: PluginManagerError)
        ensures
            is_sandbox_error(result@, error),
    {
        let message = error.to_string();
        PluginManagerError::SandboxError { message, source: error }
    }
}

} // verus!
