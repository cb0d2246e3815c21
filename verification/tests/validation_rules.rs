use std::io;

use tauri_plugin_icloud_container::bridge::{
    file_content_to_bytes, normalize_mobile_error, IdentifierResolver,
};
use tauri_plugin_icloud_container::commands::{
    prepare_create_directory, prepare_create_file, prepare_list_directory, prepare_path_request,
    prepare_read_file, prepare_transfer, prepare_write_file, resolve_encoding,
    resolve_optional_identifier, validate_identifier, validate_relative_path, validate_watch_id,
};
use tauri_plugin_icloud_container::error::{classify_io_kind, unsupported, ErrorCode, IoFailure};
use tauri_plugin_icloud_container::{
    CreateDirectoryOptions, CreateFileOptions, FileContent, FileProtectionType,
    IcloudContainerConfig, ListDirectoryOptions, PluginError, ReadFileOptions, WriteFileOptions,
};

fn detail_of(err: &PluginError) -> Option<String> {
    match err {
        PluginError::ContainerUnavailable { detail }
        | PluginError::NotSignedIn { detail }
        | PluginError::PermissionDenied { detail }
        | PluginError::PathOutsideContainer { detail }
        | PluginError::NotFound { detail }
        | PluginError::AlreadyExists { detail }
        | PluginError::IoError { detail }
        | PluginError::SyncError { detail }
        | PluginError::InvalidArgument { detail } => detail.clone(),
    }
}

// ---------------------------------------------------------------------------
// Paths
// ---------------------------------------------------------------------------

#[test]
fn path_is_trimmed_of_unicode_whitespace() {
    let p = validate_relative_path("\u{3000} docs/a.md\t\n".to_string()).unwrap();
    assert_eq!(p, "docs/a.md");
}

#[test]
fn path_error_details_are_exact() {
    let e = validate_relative_path(" \u{00A0} ".to_string()).unwrap_err();
    assert_eq!(e.error_code(), "invalid_argument");
    assert_eq!(detail_of(&e).as_deref(), Some("path is required and cannot be empty"));

    let e = validate_relative_path("  /abs".to_string()).unwrap_err();
    assert_eq!(e.error_code(), "path_outside_container");
    assert_eq!(detail_of(&e).as_deref(), Some("path must be relative to container root"));

    let e = validate_relative_path("a/../b".to_string()).unwrap_err();
    assert_eq!(e.error_code(), "path_outside_container");
    assert_eq!(detail_of(&e).as_deref(), Some("path cannot traverse outside container root"));
}

#[test]
fn only_whole_dot_dot_components_climb() {
    for rejected in ["..", "a/..", "a//../b", "./..", "a/b/.."] {
        assert!(validate_relative_path(rejected.to_string()).is_err(), "{rejected}");
    }
    for accepted in ["a/..b", "a/b..", "...", "./a", "a/.b/c", ".hidden", "a//b"] {
        assert_eq!(validate_relative_path(accepted.to_string()).unwrap(), accepted);
    }
}

#[test]
fn validated_path_validates_to_itself() {
    let once = validate_relative_path("  notes/today.md ".to_string()).unwrap();
    let twice = validate_relative_path(once.clone()).unwrap();
    assert_eq!(once, twice);
}

// ---------------------------------------------------------------------------
// Identifiers and watch ids
// ---------------------------------------------------------------------------

#[test]
fn identifier_and_watch_id_are_trimmed() {
    assert_eq!(validate_identifier(" iCloud.x ".to_string()).unwrap(), "iCloud.x");
    assert_eq!(validate_watch_id("\twatch-7 ".to_string()).unwrap(), "watch-7");
    let e = validate_identifier("".to_string()).unwrap_err();
    assert_eq!(
        detail_of(&e).as_deref(),
        Some("identifier is required and cannot be empty")
    );
    let e = validate_watch_id("".to_string()).unwrap_err();
    assert_eq!(detail_of(&e).as_deref(), Some("watch_id is required and cannot be empty"));
}

#[test]
fn resolver_prefers_non_blank_override_and_normalizes_default() {
    let resolver = IdentifierResolver::new(Some("  iCloud.default  ".to_string()));
    assert_eq!(resolver.default_identifier(), Some("iCloud.default".to_string()));
    assert_eq!(
        resolver.resolve_identifier(Some(" iCloud.other ".to_string())),
        Some("iCloud.other".to_string())
    );
    assert_eq!(
        resolver.resolve_identifier(Some("   ".to_string())),
        Some("iCloud.default".to_string())
    );
    assert_eq!(resolver.resolve_identifier(None), Some("iCloud.default".to_string()));

    let blank = IdentifierResolver::new(Some(" ".to_string()));
    assert_eq!(blank.default_identifier(), None);
    assert_eq!(blank.resolve_identifier(None), None);
}

#[test]
fn override_validation_agrees_with_normalization() {
    let validated = resolve_optional_identifier(Some(" iCloud.a ".to_string())).unwrap();
    let normalized = tauri_plugin_icloud_container::bridge::normalize_identifier(Some(
        " iCloud.a ".to_string(),
    ));
    assert_eq!(validated, normalized);
}

#[test]
fn config_default_has_no_identifier() {
    let config = IcloudContainerConfig::default();
    assert_eq!(config.identifier, None);
}

// ---------------------------------------------------------------------------
// Encodings and options
// ---------------------------------------------------------------------------

#[test]
fn encoding_is_trimmed_and_blank_means_utf8() {
    assert_eq!(resolve_encoding(Some("  bytes ".to_string())).unwrap(), "bytes");
    assert_eq!(resolve_encoding(Some(" utf8".to_string())).unwrap(), "utf8");
    assert_eq!(resolve_encoding(Some("   ".to_string())).unwrap(), "utf8");
    let resolved = resolve_encoding(Some("bytes".to_string())).unwrap();
    assert_eq!(resolve_encoding(Some(resolved.clone())).unwrap(), resolved);
}

#[test]
fn invalid_encoding_detail_names_the_trimmed_value() {
    let e = resolve_encoding(Some(" BYTES ".to_string())).unwrap_err();
    assert_eq!(e.error_code(), "invalid_argument");
    assert_eq!(
        detail_of(&e).as_deref(),
        Some("invalid encoding 'BYTES', expected 'utf8' or 'bytes'")
    );
}

#[test]
fn absent_options_equal_empty_options() {
    assert_eq!(
        prepare_write_file("a".to_string(), None, None).unwrap(),
        prepare_write_file(
            "a".to_string(),
            None,
            Some(WriteFileOptions { encoding: None, overwrite: None, file_protection: None })
        )
        .unwrap()
    );
    assert_eq!(
        prepare_create_directory("a".to_string(), None, None).unwrap(),
        prepare_create_directory(
            "a".to_string(),
            None,
            Some(CreateDirectoryOptions {
                with_intermediate_directories: None,
                file_protection: None
            })
        )
        .unwrap()
    );
}

// ---------------------------------------------------------------------------
// Command requests
// ---------------------------------------------------------------------------

#[test]
fn path_errors_come_before_identifier_and_option_errors() {
    let e = prepare_read_file(
        "../x".to_string(),
        Some(" ".to_string()),
        Some(ReadFileOptions { encoding: Some("nope".to_string()) }),
    )
    .unwrap_err();
    assert_eq!(e.error_code(), "path_outside_container");

    let e = prepare_read_file(
        "x".to_string(),
        Some(" ".to_string()),
        Some(ReadFileOptions { encoding: Some("nope".to_string()) }),
    )
    .unwrap_err();
    assert_eq!(
        detail_of(&e).as_deref(),
        Some("identifier is required and cannot be empty")
    );

    let e = prepare_read_file(
        "x".to_string(),
        None,
        Some(ReadFileOptions { encoding: Some("nope".to_string()) }),
    )
    .unwrap_err();
    assert_eq!(
        detail_of(&e).as_deref(),
        Some("invalid encoding 'nope', expected 'utf8' or 'bytes'")
    );
}

#[test]
fn accepted_requests_carry_validated_values() {
    let (path, id) = prepare_path_request(" a/b ".to_string(), Some(" iCloud.z ".to_string()))
        .unwrap();
    assert_eq!(path, "a/b");
    assert_eq!(id, Some("iCloud.z".to_string()));

    let (path, id, content, encoding, protection) = prepare_create_file(
        "f.bin".to_string(),
        None,
        Some(CreateFileOptions {
            content: Some(vec![1, 2, 3]),
            encoding: Some("bytes".to_string()),
            file_protection: None,
        }),
    )
    .unwrap();
    assert_eq!(path, "f.bin");
    assert_eq!(id, None);
    assert_eq!(content, vec![1, 2, 3]);
    assert_eq!(encoding, "bytes");
    assert_eq!(protection, FileProtectionType::Complete);

    let (path, _, recursive, hidden) = prepare_list_directory(
        "dir".to_string(),
        None,
        Some(ListDirectoryOptions { recursive: Some(true), skips_hidden_files: None }),
    )
    .unwrap();
    assert_eq!(path, "dir");
    assert!(recursive);
    assert!(!hidden);
}

#[test]
fn transfers_check_both_paths_in_order() {
    let e = prepare_transfer("/a".to_string(), "../b".to_string(), None).unwrap_err();
    assert_eq!(detail_of(&e).as_deref(), Some("path must be relative to container root"));
    let e = prepare_transfer("a".to_string(), "../b".to_string(), None).unwrap_err();
    assert_eq!(
        detail_of(&e).as_deref(),
        Some("path cannot traverse outside container root")
    );
    let (s, d, id) = prepare_transfer(" a ".to_string(), "b/c".to_string(), None).unwrap();
    assert_eq!((s.as_str(), d.as_str(), id), ("a", "b/c", None));
}

// ---------------------------------------------------------------------------
// Errors
// ---------------------------------------------------------------------------

#[test]
fn every_code_has_its_message() {
    let cases = [
        (ErrorCode::ContainerUnavailable, "iCloud container not accessible"),
        (ErrorCode::NotSignedIn, "user not signed into iCloud"),
        (ErrorCode::PermissionDenied, "OS permission denied"),
        (ErrorCode::PathOutsideContainer, "path escapes container sandbox"),
        (ErrorCode::NotFound, "file or directory not found"),
        (ErrorCode::AlreadyExists, "file or directory already exists"),
        (ErrorCode::IoError, "I/O error"),
        (ErrorCode::SyncError, "iCloud sync error"),
        (ErrorCode::InvalidArgument, "invalid command argument"),
    ];
    for (code, message) in cases {
        let e = PluginError::with_code(code, Some("d".to_string()));
        assert_eq!(e.message(), message);
        assert_eq!(detail_of(&e).as_deref(), Some("d"));
    }
}

#[test]
fn unsupported_is_invalid_argument_not_implemented() {
    let r: Result<u8, PluginError> = unsupported();
    let e = r.unwrap_err();
    assert_eq!(e.error_code(), "invalid_argument");
    assert_eq!(detail_of(&e).as_deref(), Some("not implemented"));
}

#[test]
fn io_errors_keep_their_description() {
    let e = PluginError::from(io::Error::new(io::ErrorKind::AlreadyExists, "exists"));
    assert_eq!(e.error_code(), "already_exists");
    assert_eq!(detail_of(&e).as_deref(), Some("exists"));
    let e = PluginError::from(io::Error::new(io::ErrorKind::TimedOut, "slow"));
    assert_eq!(e.error_code(), "io_error");
    assert_eq!(detail_of(&e).as_deref(), Some("slow"));
    let e = PluginError::from_io_failure(IoFailure::NotFound, "gone".to_string());
    assert_eq!(e.error_code(), "not_found");
}

#[test]
fn native_failures_round_trip_every_code() {
    let cases = [
        ("CONTAINER_UNAVAILABLE", "container_unavailable"),
        ("NOT_SIGNED_IN", "not_signed_in"),
        ("PERMISSION_DENIED", "permission_denied"),
        ("PATH_OUTSIDE_CONTAINER", "path_outside_container"),
        ("NOT_FOUND", "not_found"),
        ("ALREADY_EXISTS", "already_exists"),
        ("IO_ERROR", "io_error"),
        ("SYNC_ERROR", "sync_error"),
        ("INVALID_ARGUMENT", "invalid_argument"),
    ];
    for (wire, code) in cases {
        let e = normalize_mobile_error(format!("ICLOUD_CONTAINER_ERROR:{wire}:a:b c"));
        assert_eq!(e.error_code(), code);
        assert_eq!(detail_of(&e).as_deref(), Some("a:b c"));
        let e = normalize_mobile_error(format!("ICLOUD_CONTAINER_ERROR:{wire}"));
        assert_eq!(e.error_code(), code);
        assert_eq!(detail_of(&e), None);
    }
}

#[test]
fn unknown_native_code_keeps_whole_message() {
    let m = "ICLOUD_CONTAINER_ERROR:WHAT:detail";
    let e = normalize_mobile_error(m.to_string());
    assert_eq!(e.error_code(), "io_error");
    assert_eq!(detail_of(&e).as_deref(), Some(m));
    let e = normalize_mobile_error("ICLOUD_CONTAINER_ERROR".to_string());
    assert_eq!(e.error_code(), "io_error");
    assert_eq!(detail_of(&e).as_deref(), Some("ICLOUD_CONTAINER_ERROR"));
}

// ---------------------------------------------------------------------------
// Content
// ---------------------------------------------------------------------------

#[test]
fn text_content_is_sent_as_utf8() {
    let bytes = file_content_to_bytes(FileContent::utf8("héllo".to_string()));
    assert_eq!(bytes, "héllo".as_bytes().to_vec());
    match FileContent::utf8("x".to_string()) {
        FileContent::Utf8 { encoding, content } => {
            assert_eq!(encoding, "utf8");
            assert_eq!(content, "x");
        }
        _ => panic!("expected utf8 content"),
    }
    match FileContent::bytes(vec![9]) {
        FileContent::Bytes { encoding, content } => {
            assert_eq!(encoding, "bytes");
            assert_eq!(content, vec![9]);
        }
        _ => panic!("expected byte content"),
    }
}

#[test]
fn io_kinds_are_sorted_into_classes() {
    assert_eq!(classify_io_kind(io::ErrorKind::NotFound), IoFailure::NotFound);
    assert_eq!(classify_io_kind(io::ErrorKind::PermissionDenied), IoFailure::PermissionDenied);
    assert_eq!(classify_io_kind(io::ErrorKind::AlreadyExists), IoFailure::AlreadyExists);
    assert_eq!(classify_io_kind(io::ErrorKind::Interrupted), IoFailure::Other);
    assert_eq!(classify_io_kind(io::ErrorKind::Other), IoFailure::Other);
    let e = PluginError::from(io::Error::new(io::ErrorKind::PermissionDenied, "no"));
    assert_eq!(e.error_code(), "permission_denied");
    assert_eq!(detail_of(&e).as_deref(), Some("no"));
}
