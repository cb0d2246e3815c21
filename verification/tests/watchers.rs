use tauri_plugin_icloud_container::{
    commands::validate_relative_path, DirectoryWatchEvent, FileWatchEvent, DIRECTORY_CHANGED_EVENT,
    FILE_CHANGED_EVENT,
};

#[test]
fn watcher_event_names_are_stable() {
    assert_eq!(DIRECTORY_CHANGED_EVENT, "icloud://directory-changed");
    assert_eq!(FILE_CHANGED_EVENT, "icloud://file-changed");
}

#[test]
fn watcher_paths_reuse_relative_path_sandboxing() {
    let valid = validate_relative_path("Documents/file.txt".to_string()).unwrap();
    assert_eq!(valid, "Documents/file.txt");

    assert!(validate_relative_path("/tmp/file.txt".to_string()).is_err());
}

#[test]
fn watch_events_carry_their_fields() {
    let event = DirectoryWatchEvent {
        watch_id: "watch-1".to_string(),
        path: "Documents".to_string(),
        recursive: true,
        entries: vec!["Documents/file.txt".to_string()],
    };
    assert_eq!(event.watch_id, "watch-1");
    assert!(event.recursive);
    assert_eq!(event.entries.len(), 1);

    let file_event = FileWatchEvent {
        watch_id: "watch-2".to_string(),
        path: "Documents/file.txt".to_string(),
    };
    assert_eq!(file_event.path, "Documents/file.txt");
}
