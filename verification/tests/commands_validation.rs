use tauri_plugin_icloud_container::commands::{resolve_optional_identifier, validate_watch_id};
use tauri_plugin_icloud_container::PluginError;

#[test]
fn resolve_optional_identifier_allows_missing_identifier() {
    assert_eq!(resolve_optional_identifier(None).unwrap(), None);
}

#[test]
fn resolve_optional_identifier_trims_valid_identifier() {
    assert_eq!(
        resolve_optional_identifier(Some("  iCloud.com.example.app  ".to_string())).unwrap(),
        Some("iCloud.com.example.app".to_string())
    );
}

#[test]
fn resolve_optional_identifier_rejects_empty_identifier_override() {
    let err = resolve_optional_identifier(Some("   ".to_string()))
        .expect_err("must reject empty override");
    match err {
        PluginError::InvalidArgument { detail } => {
            assert!(detail
                .unwrap_or_default()
                .contains("identifier is required"));
        }
        _ => panic!("expected invalid_argument"),
    }
}

#[test]
fn validate_watch_id_rejects_empty_values() {
    let err = validate_watch_id("   ".to_string()).expect_err("must reject empty watch id");
    match err {
        PluginError::InvalidArgument { detail } => {
            assert!(detail.unwrap_or_default().contains("watch_id is required"));
        }
        _ => panic!("expected invalid_argument"),
    }
}
