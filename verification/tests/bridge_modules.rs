use dzsspeedy::bridge::modules::{
    find_remote_module, hresult_from_win32, module_snapshot_error_kind, module_snapshot_retry,
    module_text, module_walk_ended, normalize_module_path, ModuleSnapshotEntry, ModuleSnapshotErrorKind,
    ModuleWalkEnd, SnapshotRetry, ERROR_BAD_LENGTH, ERROR_INVALID_PARAMETER, ERROR_NO_MORE_FILES,
    ERROR_PARTIAL_COPY,
};

const ERROR_ACCESS_DENIED: u32 = 5;

fn padded(s: &str, width: usize) -> Vec<u16> {
    let mut v: Vec<u16> = s.encode_utf16().collect();
    while v.len() < width {
        v.push(0);
    }
    v
}

fn entry(name: &str, path: &str, base: usize) -> ModuleSnapshotEntry {
    ModuleSnapshotEntry { name: padded(name, 256), path: padded(path, 260), base }
}

#[test]
fn treats_process_teardown_snapshot_errors_as_target_gone() {
    assert_eq!(
        module_snapshot_error_kind(hresult_from_win32(ERROR_INVALID_PARAMETER)),
        ModuleSnapshotErrorKind::TargetGone
    );
    assert_eq!(
        module_snapshot_error_kind(hresult_from_win32(ERROR_PARTIAL_COPY)),
        ModuleSnapshotErrorKind::TargetGone
    );
    assert_eq!(
        module_snapshot_error_kind(hresult_from_win32(ERROR_ACCESS_DENIED)),
        ModuleSnapshotErrorKind::Fatal
    );
}

#[test]
fn normalizes_extended_windows_module_paths() {
    assert_eq!(
        normalize_module_path(r"\\?\E:/Apps/DzsSpeedy/speedpatch64.dll"),
        r"e:\apps\dzsspeedy\speedpatch64.dll"
    );
}

#[test]
fn normalization_drops_trailing_backslashes_only() {
    assert_eq!(normalize_module_path(r"C:\Games\"), r"c:\games");
    assert_eq!(normalize_module_path(r"\\server\Share"), r"\\server\share");
    assert_eq!(normalize_module_path(""), "");
}

#[test]
fn hresult_of_win32_errors() {
    assert_eq!(hresult_from_win32(5), 0x8007_0005);
    assert_eq!(hresult_from_win32(0), 0);
    assert_eq!(hresult_from_win32(0x8000_4005), 0x8000_4005);
    assert_eq!(hresult_from_win32(0x0001_0005), 0x8007_0005);
}

#[test]
fn changing_module_lists_are_retried_a_bounded_number_of_times() {
    let bad_length = hresult_from_win32(ERROR_BAD_LENGTH);
    assert_eq!(module_snapshot_retry(bad_length, 0), SnapshotRetry::Retry);
    assert_eq!(module_snapshot_retry(bad_length, 6), SnapshotRetry::Retry);
    assert_eq!(module_snapshot_retry(bad_length, 7), SnapshotRetry::Fatal);
    assert_eq!(module_snapshot_retry(hresult_from_win32(ERROR_PARTIAL_COPY), 0), SnapshotRetry::TargetGone);
    assert_eq!(module_snapshot_retry(hresult_from_win32(ERROR_ACCESS_DENIED), 0), SnapshotRetry::Fatal);
}

#[test]
fn module_walk_ends_on_no_more_files_or_teardown() {
    assert!(module_walk_ended(hresult_from_win32(ERROR_NO_MORE_FILES)));
    assert!(module_walk_ended(hresult_from_win32(ERROR_INVALID_PARAMETER)));
    assert!(!module_walk_ended(hresult_from_win32(ERROR_ACCESS_DENIED)));
}

#[test]
fn module_text_stops_at_the_padding() {
    assert_eq!(module_text(&padded("kernel32.dll", 16)), "kernel32.dll");
    assert_eq!(module_text(&[0, 0, 0]), "");
}

#[test]
fn finds_the_first_matching_module() {
    let entries = vec![
        entry("game.exe", r"C:\Games\game.exe", 0x1000),
        entry("SPEEDPATCH64.DLL", r"\\?\C:/Apps/DzsSpeedy/speedpatch64.dll", 0x2000),
        entry("speedpatch64.dll", r"C:\Apps\DzsSpeedy\speedpatch64.dll", 0x3000),
    ];
    let found = find_remote_module(
        7,
        "speedpatch64.dll",
        Some(r"c:\apps\dzsspeedy\speedpatch64.dll"),
        &entries,
        ModuleWalkEnd::Complete,
    )
    .unwrap()
    .unwrap();
    assert_eq!(found.base, 0x2000);
    assert_eq!(found.path, r"\\?\C:/Apps/DzsSpeedy/speedpatch64.dll");
}

#[test]
fn refuses_a_same_named_module_from_another_path() {
    let entries = vec![
        entry("speedpatch64.dll", r"D:\old\speedpatch64.dll", 0x2000),
        entry("speedpatch64.dll", r"E:\older\speedpatch64.dll", 0x3000),
    ];
    let r = find_remote_module(
        7,
        "speedpatch64.dll",
        Some(r"C:\Apps\speedpatch64.dll"),
        &entries,
        ModuleWalkEnd::Complete,
    );
    assert_eq!(
        r.err(),
        Some(
            r"pid=7 already contains speedpatch64.dll from a different path: D:\old\speedpatch64.dll, E:\older\speedpatch64.dll"
                .to_string()
        )
    );
}

#[test]
fn a_missing_module_is_none_unless_the_walk_failed() {
    let entries = vec![entry("game.exe", r"C:\Games\game.exe", 0x1000)];
    let r = find_remote_module(7, "speedpatch64.dll", None, &entries, ModuleWalkEnd::Complete);
    assert!(matches!(r, Ok(None)));
    let r = find_remote_module(7, "speedpatch64.dll", None, &entries, ModuleWalkEnd::Failed("walk failed".to_string()));
    assert_eq!(r.err(), Some("walk failed".to_string()));
    let with_module = vec![entry("speedpatch64.dll", r"C:\x\speedpatch64.dll", 0x4000)];
    let r = find_remote_module(7, "speedpatch64.dll", None, &with_module, ModuleWalkEnd::Failed("walk failed".to_string()));
    assert_eq!(r.unwrap().unwrap().base, 0x4000);
}
