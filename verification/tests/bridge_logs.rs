use dzsspeedy::bridge::logs::{
    completed_without_terminal_handshake_detail, latest_speedpatch_install_failure, speedpatch_log_file_name,
    speedpatch_log_tail,
};

fn utf16le(s: &str) -> Vec<u8> {
    s.encode_utf16().flat_map(|u| u.to_le_bytes()).collect()
}

#[test]
fn reads_only_what_was_logged_after_the_initial_length() {
    let mut bytes = utf16le("old line\n");
    let initial = bytes.len() as u64;
    bytes.extend(utf16le("SP_Install: MH_CreateHook FAILED\n"));
    assert_eq!(speedpatch_log_tail(&bytes, initial), Some("SP_Install: MH_CreateHook FAILED\n".to_string()));
    assert_eq!(speedpatch_log_tail(&bytes, 0).unwrap(), "old line\nSP_Install: MH_CreateHook FAILED\n");
}

#[test]
fn log_tail_rounds_to_whole_units() {
    let bytes = utf16le("abc");
    assert_eq!(speedpatch_log_tail(&bytes, 1), Some("bc".to_string()));
    let mut odd = utf16le("ab");
    odd.push(0x41);
    assert_eq!(speedpatch_log_tail(&odd, 0), Some("ab".to_string()));
    assert_eq!(speedpatch_log_tail(&bytes, 100), Some(String::new()));
}

#[test]
fn picks_the_last_install_failure_line() {
    let log = "SP_Install: MH_CreateHook(GetTickCount) FAILED (MH_ERROR_UNSUPPORTED_FUNCTION)\r\n\
               other line\n  SP_Install: MH_EnableHook FAILED  \r\ntrailer";
    assert_eq!(latest_speedpatch_install_failure(log), Some("SP_Install: MH_EnableHook FAILED".to_string()));
    assert_eq!(latest_speedpatch_install_failure("SP_Install: ok\nnothing FAILED here"), None);
    assert_eq!(latest_speedpatch_install_failure(""), None);
}

#[test]
fn names_the_log_file() {
    assert_eq!(speedpatch_log_file_name(4242), "dzsspeedy-speedpatch-4242.log");
}

#[test]
fn completion_without_handshake_names_the_native_error() {
    assert_eq!(
        completed_without_terminal_handshake_detail(9, 11, Some("SP_Install: X FAILED".to_string()), r"C:\t\l.log"),
        r"SP_HookProc signaled completion for pid=9, callback_thread=11, but the terminal handshake is unavailable. Native DLL error: SP_Install: X FAILED DLL log: C:\t\l.log"
    );
    assert_eq!(
        completed_without_terminal_handshake_detail(9, 11, None, "l.log"),
        "SP_HookProc signaled completion for pid=9, callback_thread=11, but the terminal handshake is unavailable. DLL log: l.log"
    );
}
