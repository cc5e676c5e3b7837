use dzsspeedy::client::{
    bridge32_get_status, bridge64_eject, bridge64_get_status, bridge64_health, bridge64_inject,
    bridge_for_arch, bridge_name_for_arch, bridge_operation, bridge_response_result, bridges_to_spawn,
    needs_bridge_repair, open_pipe_failure, pipe_reply, Bridge, PIPE_32, PIPE_64,
};
use std::cell::Cell;

#[test]
fn accepts_ok_response() {
    assert_eq!(bridge_response_result("INJECT 42", "OK"), Ok(()));
}

#[test]
fn preserves_bridge_error_response() {
    assert_eq!(
        bridge_response_result("INJECT 42", "ERROR remote LoadLibrary failed"),
        Err("INJECT 42: remote LoadLibrary failed".to_string())
    );
}

#[test]
fn reports_unexpected_response() {
    assert_eq!(
        bridge_response_result("ENABLE 42", "BROKEN"),
        Err("ENABLE 42: unexpected bridge response: BROKEN".to_string())
    );
}

#[test]
fn sends_the_command_to_the_right_pipe() {
    let r = bridge64_inject(42, |pipe: &str, cmd: &str| {
        assert_eq!(pipe, PIPE_64);
        assert_eq!(cmd, "INJECT 42");
        Ok("ERROR nope".to_string())
    });
    assert_eq!(r, Err("INJECT 42: nope".to_string()));
    let r = bridge64_inject(42, |_: &str, _: &str| Err("open named pipe failed".to_string()));
    assert_eq!(r, Err("open named pipe failed".to_string()));
}

#[test]
fn reads_health_eject_and_status_replies() {
    assert!(bridge64_health(|_: &str, cmd: &str| {
        assert_eq!(cmd, "GETSPEED");
        Ok("OK 1.000000".to_string())
    }));
    assert!(!bridge64_health(|_: &str, _: &str| Ok("ERROR bridge is shutting down".to_string())));
    assert!(bridge64_eject(7, |_: &str, cmd: &str| {
        assert_eq!(cmd, "EJECT 7");
        Ok("OK".to_string())
    }));
    assert!(!bridge64_eject(7, |_: &str, _: &str| Ok("OK 1".to_string())));
    assert_eq!(bridge64_get_status(7, |_: &str, _: &str| Ok("OK ENABLED".to_string())), Some(true));
    assert_eq!(
        bridge32_get_status(7, |pipe: &str, cmd: &str| {
            assert_eq!(pipe, PIPE_32);
            assert_eq!(cmd, "STATUS 7");
            Ok("OK DISABLED".to_string())
        }),
        Some(false)
    );
    assert_eq!(bridge64_get_status(7, |_: &str, _: &str| Ok("OK INITIALIZING".to_string())), None);
}

#[test]
fn maps_architectures_to_bridges() {
    assert_eq!(bridge_name_for_arch("x86"), "bridge32.exe");
    assert_eq!(bridge_name_for_arch("x64"), "bridge64.exe");
    assert_eq!(bridge_name_for_arch("arm64"), "bridge64.exe");
    assert_eq!(bridge_for_arch("x86"), Ok(Bridge::X86));
    assert_eq!(bridge_for_arch("x64"), Ok(Bridge::X64));
    assert_eq!(bridge_for_arch("arm64"), Err("unsupported target architecture: arm64".to_string()));
}

#[test]
fn detects_bridge_shutdown_responses_for_repair() {
    assert!(needs_bridge_repair("INJECT 4: bridge shutdown is in progress; operation was not started"));
    assert!(needs_bridge_repair("GETSPEED: bridge is shutting down"));
    assert!(needs_bridge_repair("open named pipe \"x\" failed after 40 attempts: unknown"));
    assert!(!needs_bridge_repair("INJECT 4: remote LoadLibrary failed"));
}

#[test]
fn retries_once_after_a_repair() {
    let calls = Cell::new(0);
    let repaired = Cell::new(false);
    let r = bridge_operation(
        || {
            calls.set(calls.get() + 1);
            if repaired.get() { Ok(()) } else { Err("bridge shutdown is in progress".to_string()) }
        },
        || repaired.set(true),
    );
    assert_eq!(r, Ok(()));
    assert_eq!(calls.get(), 2);
    assert!(repaired.get());

    let calls = Cell::new(0);
    let r = bridge_operation(
        || {
            calls.set(calls.get() + 1);
            Err("remote LoadLibrary failed".to_string())
        },
        || panic!("no repair expected"),
    );
    assert_eq!(r, Err("remote LoadLibrary failed".to_string()));
    assert_eq!(calls.get(), 1);
}

#[test]
fn spawns_only_missing_bridges() {
    assert_eq!(bridges_to_spawn(&[]), vec!["bridge64.exe", "bridge32.exe"]);
    assert_eq!(bridges_to_spawn(&["bridge32.exe".to_string()]), vec!["bridge64.exe"]);
    assert!(bridges_to_spawn(&["bridge64.exe".to_string(), "bridge32.exe".to_string()]).is_empty());
}

#[test]
fn bridge_replies_are_trimmed_and_empty_reads_fail() {
    assert_eq!(pipe_reply("PING", b"  OK bridge-filemap-v3\n"), Ok("OK bridge-filemap-v3".to_string()));
    assert_eq!(pipe_reply("PING", b""), Err("pipe read returned no data for PING".to_string()));
}

#[test]
fn unreachable_pipes_call_for_repair() {
    let e = open_pipe_failure(&[92, 92, 0], "Error { code: 0x80070002 }");
    assert_eq!(e, "open named pipe [92, 92, 0] failed after 40 attempts: Error { code: 0x80070002 }");
    assert!(needs_bridge_repair(&e));
}

#[test]
fn a_reply_with_invalid_utf8_is_decoded_with_replacement() {
    assert_eq!(pipe_reply("PING", b" OK \xff\n"), Ok("OK \u{FFFD}".to_string()));
}
