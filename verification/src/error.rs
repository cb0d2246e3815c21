//! The plugin's error taxonomy: nine stable codes, each with an optional detail.
use vstd::prelude::*;

verus! {

/// The nine stable error codes of the plugin.
#[derive(Debug, Clone, Copy, PartialEq, Eq, Structural)]
pub enum ErrorCode {
    ContainerUnavailable,
    NotSignedIn,
    PermissionDenied,
    PathOutsideContainer,
    NotFound,
    AlreadyExists,
    IoError,
    SyncError,
    InvalidArgument,
}

/// Plugin error: a code and an optional human-readable detail.
#[derive(Debug)]
pub enum PluginError {
    ContainerUnavailable { detail: Option<String> },
    NotSignedIn { detail: Option<String> },
    PermissionDenied { detail: Option<String> },
    PathOutsideContainer { detail: Option<String> },
    NotFound { detail: Option<String> },
    AlreadyExists { detail: Option<String> },
    IoError { detail: Option<String> },
    SyncError { detail: Option<String> },
    InvalidArgument { detail: Option<String> },
}

/// What an error is, for contracts: its code and the text of its detail.
pub struct ErrorView {
    pub code: ErrorCode,
    pub detail: Option<Seq<char>>,
}

/// The error with `code` and `detail`, as seen in contracts.
pub open spec fn error_of(code: ErrorCode, detail: Option<Seq<char>>) -> ErrorView {
    ErrorView { code, detail }
}

impl View for PluginError {
    type V = ErrorView;

    open spec fn view(&self) -> ErrorView {
        match self {
            PluginError::ContainerUnavailable { detail } => error_of(
                ErrorCode::ContainerUnavailable,
                detail.deep_view(),
            ),
            PluginError::NotSignedIn { detail } => error_of(
                ErrorCode::NotSignedIn,
                detail.deep_view(),
            ),
            PluginError::PermissionDenied { detail } => error_of(
                ErrorCode::PermissionDenied,
                detail.deep_view(),
            ),
            PluginError::PathOutsideContainer { detail } => error_of(
                ErrorCode::PathOutsideContainer,
                detail.deep_view(),
            ),
            PluginError::NotFound { detail } => error_of(ErrorCode::NotFound, detail.deep_view()),
            PluginError::AlreadyExists { detail } => error_of(
                ErrorCode::AlreadyExists,
                detail.deep_view(),
            ),
            PluginError::IoError { detail } => error_of(ErrorCode::IoError, detail.deep_view()),
            PluginError::SyncError { detail } => error_of(ErrorCode::SyncError, detail.deep_view()),
            PluginError::InvalidArgument { detail } => error_of(
                ErrorCode::InvalidArgument,
                detail.deep_view(),
            ),
        }
    }
}

/// The outcome of a fallible step, as seen in contracts: the deep view of
/// what it gave, or the view of its error.
pub open spec fn outcome<T: DeepView>(r: Result<T, PluginError>) -> Result<T::V, ErrorView> {
    match r {
        Ok(t) => Ok(t.deep_view()),
        Err(e) => Err(e@),
    }
}

/// The stable lowercase text of each code.
pub open spec fn code_text(code: ErrorCode) -> Seq<char> {
    match code {
        ErrorCode::ContainerUnavailable => "container_unavailable"@,
        ErrorCode::NotSignedIn => "not_signed_in"@,
        ErrorCode::PermissionDenied => "permission_denied"@,
        ErrorCode::PathOutsideContainer => "path_outside_container"@,
        ErrorCode::NotFound => "not_found"@,
        ErrorCode::AlreadyExists => "already_exists"@,
        ErrorCode::IoError => "io_error"@,
        ErrorCode::SyncError => "sync_error"@,
        ErrorCode::InvalidArgument => "invalid_argument"@,
    }
}

/// The human-readable message of each code.
pub open spec fn code_message(code: ErrorCode) -> Seq<char> {
    match code {
        ErrorCode::ContainerUnavailable => "iCloud container not accessible"@,
        ErrorCode::NotSignedIn => "user not signed into iCloud"@,
        ErrorCode::PermissionDenied => "OS permission denied"@,
        ErrorCode::PathOutsideContainer => "path escapes container sandbox"@,
        ErrorCode::NotFound => "file or directory not found"@,
        ErrorCode::AlreadyExists => "file or directory already exists"@,
        ErrorCode::IoError => "I/O error"@,
        ErrorCode::SyncError => "iCloud sync error"@,
        ErrorCode::InvalidArgument => "invalid command argument"@,
    }
}

/// The detail of the error that stubbed commands return.
pub open spec fn not_implemented_error() -> ErrorView {
    error_of(ErrorCode::InvalidArgument, Some("not implemented"@))
}

/// The class of an I/O failure that the error taxonomy tells apart.
#[derive(Debug, Clone, Copy, PartialEq, Eq, Structural)]
pub enum IoFailure {
    NotFound,
    PermissionDenied,
    AlreadyExists,
    Other,
}

/// The code that an I/O failure of class `kind` maps to.
pub open spec fn io_failure_code(kind: IoFailure) -> ErrorCode {
    match kind {
        IoFailure::NotFound => ErrorCode::NotFound,
        IoFailure::PermissionDenied => ErrorCode::PermissionDenied,
        IoFailure::AlreadyExists => ErrorCode::AlreadyExists,
        IoFailure::Other => ErrorCode::IoError,
    }
}

impl PluginError {
    /// The error with the given code and detail.
    pub fn with_code(code: ErrorCode, detail: Option<String>) -> (r: PluginError)
        ensures
            r@ == error_of(code, detail.deep_view()),
    {
        match code {
            ErrorCode::ContainerUnavailable => PluginError::ContainerUnavailable { detail },
            ErrorCode::NotSignedIn => PluginError::NotSignedIn { detail },
            ErrorCode::PermissionDenied => PluginError::PermissionDenied { detail },
            ErrorCode::PathOutsideContainer => PluginError::PathOutsideContainer { detail },
            ErrorCode::NotFound => PluginError::NotFound { detail },
            ErrorCode::AlreadyExists => PluginError::AlreadyExists { detail },
            ErrorCode::IoError => PluginError::IoError { detail },
            ErrorCode::SyncError => PluginError::SyncError { detail },
            ErrorCode::InvalidArgument => PluginError::InvalidArgument { detail },
        }
    }

    /// Return the stable error code as lowercase string.
    pub fn error_code(&self) -> (r: &'static str)
        ensures
            r@ == code_text(self@.code),
    {
        match self {
            PluginError::ContainerUnavailable { .. } => "container_unavailable",
            PluginError::NotSignedIn { .. } => "not_signed_in",
            PluginError::PermissionDenied { .. } => "permission_denied",
            PluginError::PathOutsideContainer { .. } => "path_outside_container",
            PluginError::NotFound { .. } => "not_found",
            PluginError::AlreadyExists { .. } => "already_exists",
            PluginError::IoError { .. } => "io_error",
            PluginError::SyncError { .. } => "sync_error",
            PluginError::InvalidArgument { .. } => "invalid_argument",
        }
    }

    /// The human-readable message of the error, without its detail.
    pub fn message(&self) -> (r: &'static str)
        ensures
            r@ == code_message(self@.code),
    {
        match self {
            PluginError::ContainerUnavailable { .. } => "iCloud container not accessible",
            PluginError::NotSignedIn { .. } => "user not signed into iCloud",
            PluginError::PermissionDenied { .. } => "OS permission denied",
            PluginError::PathOutsideContainer { .. } => "path escapes container sandbox",
            PluginError::NotFound { .. } => "file or directory not found",
            PluginError::AlreadyExists { .. } => "file or directory already exists",
            PluginError::IoError { .. } => "I/O error",
            PluginError::SyncError { .. } => "iCloud sync error",
            PluginError::InvalidArgument { .. } => "invalid command argument",
        }
    }

    /// The error for an I/O failure of class `kind` whose description is `text`.
    pub fn from_io_failure(kind: IoFailure, text: String) -> (r: PluginError)
        ensures
            r@ == error_of(io_failure_code(kind), Some(text@)),
    {
        match kind {
            IoFailure::NotFound => PluginError::NotFound { detail: Some(text) },
            IoFailure::PermissionDenied => PluginError::PermissionDenied { detail: Some(text) },
            IoFailure::AlreadyExists => PluginError::AlreadyExists { detail: Some(text) },
            IoFailure::Other => PluginError::IoError { detail: Some(text) },
        }
    }
}

/// Helper to return unsupported operations (for stubbed commands).
pub fn unsupported<T>() -> (r: Result<T, PluginError>)
    ensures
        r is Err,
        r->Err_0@ == not_implemented_error(),
{
    Err(PluginError::InvalidArgument { detail: Some("not implemented".to_owned()) })
}

#[verifier::external_type_specification]
#[verifier::external_body]
pub struct ExIoError(std::io::Error);

#[verifier::external_type_specification]
pub struct ExIoErrorKind(std::io::ErrorKind);

/// What `std::io::Error::kind` returns for `err`: the kind stored in the
/// error, which depends on the error alone.
pub uninterp spec fn io_error_kind(err: std::io::Error) -> std::io::ErrorKind;

/// Calls `std::io::Error::kind`; its result is named `io_error_kind`.
#[verifier::external_body]
fn io_error_kind_of(err: &std::io::Error) -> (r: std::io::ErrorKind)
    ensures
        r == io_error_kind(*err),
{
    err.kind()
}

/// The class of an I/O error kind: not found, permission denied and already
/// exists keep their meaning, every other kind is `Other`.
pub open spec fn kind_class(kind: std::io::ErrorKind) -> IoFailure {
    match kind {
        std::io::ErrorKind::NotFound => IoFailure::NotFound,
        std::io::ErrorKind::PermissionDenied => IoFailure::PermissionDenied,
        std::io::ErrorKind::AlreadyExists => IoFailure::AlreadyExists,
        _ => IoFailure::Other,
    }
}

/// Sorts an I/O error kind into the classes that the taxonomy tells apart.
pub fn classify_io_kind(kind: std::io::ErrorKind) -> (r: IoFailure)
    ensures
        r == kind_class(kind),
{
    match kind {
        std::io::ErrorKind::NotFound => IoFailure::NotFound,
        std::io::ErrorKind::PermissionDenied => IoFailure::PermissionDenied,
        std::io::ErrorKind::AlreadyExists => IoFailure::AlreadyExists,
        _ => IoFailure::Other,
    }
}

/// Map standard IO errors to PluginError: not found, permission denied and
/// already exists keep their meaning, anything else is an `io_error`; the
/// detail is the error's description (its `Display` text).
impl From<std::io::Error> for PluginError {
    fn from(err: std::io::Error) -> (r: PluginError)
        ensures
            r@.code == io_failure_code(kind_class(io_error_kind(err))),
            exists|text: String|
                vstd::string::to_string_from_display_ensures::<std::io::Error>(&err, text)
                    && r@.detail == Some(text@),
    {
        let kind = classify_io_kind(io_error_kind_of(&err));
        let text = err.to_string();
        PluginError::from_io_failure(kind, text)
    }
}

/// `from` is described by its own `ensures` rather than by a spec function:
/// the detail is the error's `Display` text, which vstd relates to the error
/// by a predicate, not by a function.
impl vstd::std_specs::convert::FromSpecImpl<std::io::Error> for PluginError {
    open spec fn obeys_from_spec() -> bool {
        false
    }

    open spec fn from_spec(v: std::io::Error) -> PluginError {
        arbitrary()
    }
}

} // verus!
