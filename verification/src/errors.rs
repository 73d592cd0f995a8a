//! The categorized error taxonomy and the mapping from backend error
//! conditions onto it.

use vstd::prelude::*;

verus! {

/// The classes of I/O failure the mapping distinguishes.
#[derive(Clone, Copy, Debug, PartialEq, Eq, Structural)]
pub enum IoErrorClass {
    NotFound,
    PermissionDenied,
    Other,
}

/// What this layer reads of a backend error: the backend's own error
/// classification, with the pieces the mapping inspects held as plain values.
#[derive(Clone, Debug, PartialEq, Eq)]
pub enum BackendErrorKind {
    /// An opaque backend failure carrying only a message.
    Generic { message: String },
    /// An underlying I/O failure, with its class and raw OS error code.
    Io { class: IoErrorClass, raw_os_code: Option<i32> },
    /// The backend reports that a watch target path does not exist.
    PathNotFound,
    /// An attempt to remove a watch that was never registered.
    WatchNotFound,
    /// An invalid runtime configuration value.
    InvalidConfig,
    /// The limit on the total number of watches was reached.
    MaxFilesWatch,
}

/// A backend error as handed to the verified mapping: its classification, its
/// textual rendering and its debug rendering.
#[derive(Clone, Debug, PartialEq, Eq)]
pub struct BackendError {
    pub kind: BackendErrorKind,
    pub message: String,
    pub detail: String,
}

/// The categorized errors this engine reports to its caller. Every variant
/// retains the backend's original message so platform-specific causes stay
/// diagnosable.
#[derive(Clone, Debug, PartialEq, Eq)]
pub enum WatcherError {
    /// A watch target does not exist.
    NotFound { message: String },
    /// The backend was denied permission on registration or deregistration.
    PermissionDenied { message: String },
    /// Any other backend failure, with its message and debug rendering.
    Generic { message: String, detail: String },
    /// The backend could not be constructed at all.
    ConstructionFailure { message: String },
}

/// The message some platforms report in a generic backend error when a watch
/// target exists neither as a file nor as a directory; it is treated as a
/// not-found condition.
pub open spec fn spec_not_found_message() -> Seq<char> {
    "Input watch path is neither a file nor a directory."@
}

/// Where each backend error lands in the categorized taxonomy: path-not-found
/// conditions (including the platform-specific generic message) become
/// `NotFound`, permission failures become `PermissionDenied`, and everything
/// else becomes `Generic` with both renderings retained.
pub open spec fn spec_map_notify_error(e: BackendError) -> WatcherError {
    match e.kind {
        BackendErrorKind::PathNotFound => WatcherError::NotFound { message: e.message },
        BackendErrorKind::Generic { message } => if message@ == spec_not_found_message() {
            WatcherError::NotFound { message: e.message }
        } else {
            WatcherError::Generic { message: e.message, detail: e.detail }
        },
        BackendErrorKind::Io { class, raw_os_code } => match class {
            IoErrorClass::NotFound => WatcherError::NotFound { message: e.message },
            IoErrorClass::PermissionDenied => WatcherError::PermissionDenied {
                message: e.message,
            },
            IoErrorClass::Other => WatcherError::Generic { message: e.message, detail: e.detail },
        },
        BackendErrorKind::WatchNotFound => WatcherError::Generic {
            message: e.message,
            detail: e.detail,
        },
        BackendErrorKind::InvalidConfig => WatcherError::Generic {
            message: e.message,
            detail: e.detail,
        },
        BackendErrorKind::MaxFilesWatch => WatcherError::Generic {
            message: e.message,
            detail: e.detail,
        },
    }
}

/// Translate a backend error into the categorized taxonomy.
pub fn map_notify_error(e: BackendError) -> (r: WatcherError)
    ensures
        r == spec_map_notify_error(e),
{
    let BackendError { kind, message, detail } = e;
    match kind {
        BackendErrorKind::PathNotFound => WatcherError::NotFound { message },
        BackendErrorKind::Generic { message: inner } => {
            let needle = String::from_str("Input watch path is neither a file nor a directory.");
            if inner == needle {
                WatcherError::NotFound { message }
            } else {
                WatcherError::Generic { message, detail }
            }
        },
        BackendErrorKind::Io { class, raw_os_code: _ } => match class {
            IoErrorClass::NotFound => WatcherError::NotFound { message },
            IoErrorClass::PermissionDenied => WatcherError::PermissionDenied { message },
            IoErrorClass::Other => WatcherError::Generic { message, detail },
        },
        BackendErrorKind::WatchNotFound => WatcherError::Generic { message, detail },
        BackendErrorKind::InvalidConfig => WatcherError::Generic { message, detail },
        BackendErrorKind::MaxFilesWatch => WatcherError::Generic { message, detail },
    }
}

} // verus!
