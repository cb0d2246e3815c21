use std::io;

use tauri_plugin_icloud_container::PluginError;

#[test]
fn test_error_codes() {
    let tests = vec![
        (
            PluginError::ContainerUnavailable {
                detail: Some("test".to_string()),
            },
            "container_unavailable",
        ),
        (
            PluginError::NotSignedIn {
                detail: Some("test".to_string()),
            },
            "not_signed_in",
        ),
        (
            PluginError::PermissionDenied {
                detail: Some("test".to_string()),
            },
            "permission_denied",
        ),
        (
            PluginError::PathOutsideContainer {
                detail: Some("test".to_string()),
            },
            "path_outside_container",
        ),
        (
            PluginError::NotFound {
                detail: Some("test".to_string()),
            },
            "not_found",
        ),
        (
            PluginError::AlreadyExists {
                detail: Some("test".to_string()),
            },
            "already_exists",
        ),
        (
            PluginError::IoError {
                detail: Some("test".to_string()),
            },
            "io_error",
        ),
        (
            PluginError::SyncError {
                detail: Some("test".to_string()),
            },
            "sync_error",
        ),
        (
            PluginError::InvalidArgument {
                detail: Some("test".to_string()),
            },
            "invalid_argument",
        ),
    ];

    for (error, expected_code) in tests {
        assert_eq!(error.error_code(), expected_code);
    }
}

#[test]
fn test_io_error_mapping() {
    let not_found = io::Error::new(io::ErrorKind::NotFound, "file not found");
    match PluginError::from(not_found) {
        PluginError::NotFound { detail } => {
            assert!(detail.is_some());
        }
        _ => panic!("expected NotFound error"),
    }

    let perm_denied = io::Error::new(io::ErrorKind::PermissionDenied, "access denied");
    match PluginError::from(perm_denied) {
        PluginError::PermissionDenied { detail } => {
            assert!(detail.is_some());
        }
        _ => panic!("expected PermissionDenied error"),
    }
}
