//! Verified core of the iCloud container plugin: argument validation for the
//! plugin's commands, the error taxonomy, the data model, and the decisions
//! of the bridge to the native plugin.
use vstd::prelude::*;

pub mod bridge;
pub mod commands;
pub mod error;
pub mod laws;
pub mod models;
pub mod text;

pub use error::PluginError;
pub use models::{
    ContainerStatus, CreateDirectoryOptions, CreateFileOptions, DirectoryWatchEvent, FileContent,
    FileProtectionType, FileWatchEvent, FolderEntry, ItemAttributes, ItemExistence,
    ListDirectoryOptions, ReadFileOptions, SyncPhase, SyncStatus, TrashItemResult,
    WriteFileOptions, DIRECTORY_CHANGED_EVENT, FILE_CHANGED_EVENT,
};

verus! {

/// Plugin configuration: the container identifier to use when a command
/// names none.
#[derive(Debug, Clone)]
pub struct IcloudContainerConfig {
    pub identifier: Option<String>,
}

impl Default for IcloudContainerConfig {
    fn default() -> (r: Self)
        ensures
            r.identifier is None,
    {
        IcloudContainerConfig { identifier: None }
    }
}

} // verus!
