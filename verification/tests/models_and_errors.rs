use tauri_plugin_icloud_container::PluginError;

// ============================================================================
// Error Taxonomy
// ============================================================================

#[test]
fn test_error_codes_are_stable() {
    let errors = vec![
        (
            PluginError::ContainerUnavailable { detail: None },
            "container_unavailable",
        ),
        (PluginError::NotSignedIn { detail: None }, "not_signed_in"),
        (
            PluginError::PermissionDenied { detail: None },
            "permission_denied",
        ),
        (
            PluginError::PathOutsideContainer { detail: None },
            "path_outside_container",
        ),
        (PluginError::NotFound { detail: None }, "not_found"),
        (
            PluginError::AlreadyExists { detail: None },
            "already_exists",
        ),
        (PluginError::IoError { detail: None }, "io_error"),
        (PluginError::SyncError { detail: None }, "sync_error"),
        (
            PluginError::InvalidArgument { detail: None },
            "invalid_argument",
        ),
    ];

    for (error, expected_code) in errors {
        assert_eq!(
            error.error_code(),
            expected_code,
            "error code mismatch for {:?}",
            error
        );
    }
}
