use tauri_plugin_icloud_container::bridge::{
    file_content_to_bytes, file_protection_to_wire, normalize_identifier, normalize_mobile_error,
};
use tauri_plugin_icloud_container::{FileContent, FileProtectionType, PluginError};

#[test]
fn normalize_mobile_error_maps_known_codes() {
    let err =
        normalize_mobile_error("ICLOUD_CONTAINER_ERROR:NOT_FOUND:file missing".to_string());
    match err {
        PluginError::NotFound { detail } => {
            assert_eq!(detail.as_deref(), Some("file missing"));
        }
        _ => panic!("expected not_found mapping"),
    }
}

#[test]
fn normalize_mobile_error_falls_back_to_io_error_for_unprefixed() {
    let err = normalize_mobile_error("something unexpected happened".to_string());
    match err {
        PluginError::IoError { detail } => {
            assert_eq!(detail.as_deref(), Some("something unexpected happened"));
        }
        _ => panic!("expected io_error fallback"),
    }
}

#[test]
fn file_content_to_bytes_preserves_binary_payload() {
    let raw = vec![0x00, 0x7F, 0xFF];
    let bytes = file_content_to_bytes(FileContent::bytes(raw.clone()));
    assert_eq!(bytes, raw);
}

#[test]
fn file_protection_to_wire_matches_expected_strings() {
    assert_eq!(
        file_protection_to_wire(FileProtectionType::Complete),
        "complete"
    );
    assert_eq!(
        file_protection_to_wire(FileProtectionType::CompleteUnlessOpen),
        "completeUnlessOpen"
    );
    assert_eq!(
        file_protection_to_wire(FileProtectionType::CompleteUntilFirstUserAuth),
        "completeUntilFirstUserAuth"
    );
    assert_eq!(
        file_protection_to_wire(FileProtectionType::NoProtection),
        "none"
    );
}

#[test]
fn normalize_identifier_trims_and_discards_empty_values() {
    assert_eq!(
        normalize_identifier(Some("  iCloud.com.example.app  ".to_string())),
        Some("iCloud.com.example.app".to_string())
    );
    assert_eq!(normalize_identifier(Some("   ".to_string())), None);
    assert_eq!(normalize_identifier(None), None);
}
