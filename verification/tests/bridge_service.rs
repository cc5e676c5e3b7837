use dzsspeedy::bridge::atomics::drain_outcome;
use dzsspeedy::bridge::logs::log_timestamp;
use dzsspeedy::bridge::modules::{hresult_from_win32, ERROR_INVALID_PARAMETER};
use dzsspeedy::bridge::protocol::{handle_command, is_shutdown_request, pipe_reply_alive, request_lines, unit_reply, CommandPlan};
use dzsspeedy::bridge::target::open_target_failure;
use dzsspeedy::client::{
    bridge64_health, bridge_response_result, needs_bridge_repair, repair_settling, repair_wait_step, RepairStep,
};

#[test]
fn pipe_messages_split_into_trimmed_requests() {
    assert_eq!(request_lines(b"PING\r\n  STATUS 42  \n\n\t\nINJECT 7"), vec!["PING", "STATUS 42", "INJECT 7"]);
    assert_eq!(request_lines(b""), Vec::<String>::new());
    assert_eq!(request_lines(b"\n\n"), Vec::<String>::new());
}

#[test]
fn shutdown_requests_ignore_ascii_case() {
    assert!(is_shutdown_request("SHUTDOWN"));
    assert!(is_shutdown_request("ShutDown"));
    assert!(!is_shutdown_request("SHUTDOWN now"));
    assert!(!is_shutdown_request("SHUTDOWNS"));
}

#[test]
fn a_live_bridge_answers_ok() {
    assert!(pipe_reply_alive(b"OK 1.000000\n"));
    assert!(pipe_reply_alive(b"  OK"));
    assert!(!pipe_reply_alive(b"ERROR bridge is shutting down"));
    assert!(!pipe_reply_alive(b""));
}

#[test]
fn drain_waits_for_operations_until_the_deadline() {
    assert_eq!(drain_outcome(0x8000_0000, false), Some(true));
    assert_eq!(drain_outcome(0x8000_0002, false), None);
    assert_eq!(drain_outcome(0x8000_0002, true), Some(false));
    assert_eq!(drain_outcome(0, true), Some(true));
}

#[test]
fn log_timestamps_have_three_digit_millis() {
    assert_eq!(log_timestamp(1_700_000_000, 7), "1700000000.007");
    assert_eq!(log_timestamp(5, 42), "5.042");
    assert_eq!(log_timestamp(0, 999), "0.999");
}

#[test]
fn opening_an_exited_target_says_so() {
    assert_eq!(
        open_target_failure(9, hresult_from_win32(ERROR_INVALID_PARAMETER), "Error { code: 0x80070057 }"),
        "TARGET_EXITED: pid=9 exited before hook installation"
    );
    assert_eq!(
        open_target_failure(9, 0x8007_0005, "Error { code: 0x80070005 }"),
        "OpenProcess(PROCESS_SYNCHRONIZE, pid=9) failed: Error { code: 0x80070005 }"
    );
}

#[test]
fn bridge_repair_steps() {
    assert_eq!(repair_wait_step(true, true, false), RepairStep::Healthy);
    assert_eq!(repair_wait_step(false, false, false), RepairStep::Respawn);
    assert_eq!(repair_wait_step(false, true, true), RepairStep::Respawn);
    assert_eq!(repair_wait_step(false, true, false), RepairStep::Wait);
    assert!(repair_settling(false, false));
    assert!(!repair_settling(true, false));
    assert!(!repair_settling(false, true));
}

#[test]
fn a_refused_operation_calls_for_repair() {
    let reply = unit_reply(Err("bridge shutdown is in progress; operation was not started".to_string()));
    let error = bridge_response_result("INJECT 4", &reply).unwrap_err();
    assert_eq!(error, "INJECT 4: bridge shutdown is in progress; operation was not started");
    assert!(needs_bridge_repair(&error));
}

#[test]
fn a_dying_bridge_fails_the_health_probe() {
    let reply = match handle_command("GETSPEED", true) {
        CommandPlan::Reply(r) => r,
        other => panic!("unexpected plan {other:?}"),
    };
    assert_eq!(reply, "ERROR bridge is shutting down");
    let answer = reply.clone();
    assert!(!bridge64_health(move |_: &str, _: &str| Ok(answer)));
    assert!(needs_bridge_repair(&bridge_response_result("GETSPEED", &reply).unwrap_err()));
}
