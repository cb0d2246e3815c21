//! The values that the plugin's commands take and give back.
use vstd::prelude::*;

verus! {

// ============================================================================
// Group 1: Container Identity
// ============================================================================

#[derive(Debug, Clone)]
pub struct ContainerStatus {
    pub available: bool,
    pub reason: Option<String>,
}

// ============================================================================
// Group 2: Coordinated File I/O - Models
// ============================================================================

/// Read file response - either UTF-8 or bytes based on encoding parameter
#[derive(Debug, Clone, PartialEq)]
pub enum FileContent {
    Utf8 { encoding: String, content: String },
    Bytes { encoding: String, content: Vec<u8> },
}

impl FileContent {
    /// Convenience constructor for UTF-8 content
    pub fn utf8(content: String) -> (r: Self)
        ensures
            r matches FileContent::Utf8 { encoding: e, content: c } && e@ == "utf8"@ && c == content,
    {
        FileContent::Utf8 { encoding: "utf8".to_owned(), content }
    }

    /// Convenience constructor for binary content
    pub fn bytes(content: Vec<u8>) -> (r: Self)
        ensures
            r matches FileContent::Bytes { encoding: e, content: c } && e@ == "bytes"@ && c@
                == content@,
    {
        FileContent::Bytes { encoding: "bytes".to_owned(), content }
    }
}

#[derive(Debug, Clone)]
pub struct FolderEntry {
    pub name: String,
    pub path: String,
    pub is_directory: bool,
    pub size: Option<u64>,
    pub modified_date: Option<i64>,
    pub created_date: Option<i64>,
    pub sync_status: Option<SyncStatus>,
}

#[derive(Debug, Clone)]
pub struct ItemExistence {
    pub exists: bool,
    pub is_directory: bool,
}

#[derive(Debug, Clone)]
pub struct ItemAttributes {
    pub size: u64,
    pub modified_date: i64,
    pub created_date: i64,
    /// "file" or "dir"
    pub item_type: String,
    pub sync_status: Option<SyncStatus>,
}

#[derive(Debug, Clone)]
pub struct TrashItemResult {
    pub path: String,
}

// ============================================================================
// Group 4: iCloud Sync Controls
// ============================================================================

#[derive(Debug, Clone)]
pub struct SyncStatus {
    pub phase: SyncPhase,
    pub is_downloading: bool,
    pub is_uploading: bool,
    pub is_uploaded: bool,
    pub download_error: Option<String>,
    pub upload_error: Option<String>,
}

#[derive(Debug, Clone, PartialEq)]
pub enum SyncPhase {
    Current,
    NotDownloaded,
    Downloaded,
}

// ============================================================================
// Option Types
// ============================================================================

#[derive(Debug, Clone, Copy, PartialEq, Eq)]
pub enum FileProtectionType {
    Complete,
    CompleteUnlessOpen,
    CompleteUntilFirstUserAuth,
    /// No file protection (`none` on the wire).
    NoProtection,
}

impl View for FileProtectionType {
    type V = FileProtectionType;

    open spec fn view(&self) -> FileProtectionType {
        *self
    }
}

impl DeepView for FileProtectionType {
    type V = FileProtectionType;

    open spec fn deep_view(&self) -> FileProtectionType {
        *self
    }
}

#[derive(Debug, Clone, PartialEq)]
pub struct WriteFileOptions {
    /// "utf8" or "bytes"
    pub encoding: Option<String>,
    pub overwrite: Option<bool>,
    pub file_protection: Option<FileProtectionType>,
}

#[derive(Debug, Clone, PartialEq)]
pub struct ReadFileOptions {
    /// "utf8" or "bytes"
    pub encoding: Option<String>,
}

#[derive(Debug, Clone, PartialEq)]
pub struct CreateFileOptions {
    /// Native bytes: string UTF-8 encoded or raw bytes
    pub content: Option<Vec<u8>>,
    /// "utf8" or "bytes": how to interpret the content bytes
    pub encoding: Option<String>,
    pub file_protection: Option<FileProtectionType>,
}

#[derive(Debug, Clone)]
pub struct CreateDirectoryOptions {
    pub with_intermediate_directories: Option<bool>,
    pub file_protection: Option<FileProtectionType>,
}

#[derive(Debug, Clone)]
pub struct ListDirectoryOptions {
    pub recursive: Option<bool>,
    pub skips_hidden_files: Option<bool>,
}

// ============================================================================
// Group 5: Watch Events
// ============================================================================

pub const DIRECTORY_CHANGED_EVENT: &'static str = "icloud://directory-changed";

pub const FILE_CHANGED_EVENT: &'static str = "icloud://file-changed";

#[derive(Debug, Clone)]
pub struct DirectoryWatchEvent {
    pub watch_id: String,
    pub path: String,
    pub recursive: bool,
    pub entries: Vec<String>,
}

#[derive(Debug, Clone)]
pub struct FileWatchEvent {
    pub watch_id: String,
    pub path: String,
}

} // verus!
