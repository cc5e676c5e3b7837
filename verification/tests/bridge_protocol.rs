use dzsspeedy::bridge::atomics::{
    active_remote_operations, admit_operation, request_shutdown, swap_speedpatch_state, shutdown_requested, try_acquire_operation_slot,
    write_speedpatch_enabled, OPERATION_COUNT_MASK, OPERATION_SHUTDOWN_BIT,
};
use dzsspeedy::bridge::ops::InjectionStatus;
use dzsspeedy::bridge::protocol::{
    command_is_shutdown_gated, handle_command, is_enabled_reply, status_reply, unit_reply, BridgeCommand,
    CommandPlan,
};
use std::sync::atomic::{AtomicU32, Ordering};

#[test]
fn shutdown_bit_atomically_closes_operation_admission() {
    let state = AtomicU32::new(0);
    try_acquire_operation_slot(&state).expect("acquire before shutdown");
    state.fetch_or(OPERATION_SHUTDOWN_BIT, Ordering::AcqRel);

    assert!(try_acquire_operation_slot(&state).is_err());
    assert_eq!(state.load(Ordering::Acquire), OPERATION_SHUTDOWN_BIT | 1);
}

#[test]
fn shutdown_gating_covers_health_probes_only() {
    for probe in ["GETSPEED", "PING", "VERSION"] {
        assert!(command_is_shutdown_gated(probe), "{probe} must be gated");
    }
    for command in ["INJECT", "EJECT", "ENABLE", "DISABLE", "ISENABLED", "STATUS", "SETSPEED", "SHUTDOWN"] {
        assert!(!command_is_shutdown_gated(command), "{command} must not be probe-gated");
    }
}

#[test]
fn refuses_a_full_operation_count() {
    let state = AtomicU32::new(OPERATION_COUNT_MASK);
    assert_eq!(try_acquire_operation_slot(&state), Err("too many concurrent bridge operations".to_string()));
    assert_eq!(state.load(Ordering::Acquire), OPERATION_COUNT_MASK);
    let state = AtomicU32::new(OPERATION_SHUTDOWN_BIT);
    assert_eq!(
        try_acquire_operation_slot(&state),
        Err("bridge shutdown is in progress; operation was not started".to_string())
    );
}

#[test]
fn reads_the_operation_word() {
    let word = request_shutdown(3);
    assert!(shutdown_requested(word));
    assert_eq!(active_remote_operations(word), 3);
    assert!(!shutdown_requested(3));
}

#[test]
fn state_writes_follow_the_protocol() {
    let word = AtomicU32::new(0x44);
    assert_eq!(write_speedpatch_enabled(8, &word, true), Ok(()));
    assert_eq!(word.load(Ordering::Acquire), 0x45);
    assert_eq!(write_speedpatch_enabled(8, &word, true), Ok(()));
    let failed = AtomicU32::new(0x46);
    assert_eq!(
        write_speedpatch_enabled(8, &failed, false),
        Err("SP_Initialize failed for pid=8; restart the target before changing state".to_string())
    );
    assert_eq!(failed.load(Ordering::Acquire), 0x46);
    let init = AtomicU32::new(0x49);
    assert_eq!(
        write_speedpatch_enabled(8, &init, true),
        Err("INJECTION_PENDING: SP_Initialize is still running for pid=8".to_string())
    );
    assert_eq!(write_speedpatch_enabled(8, &init, false), Ok(()));
    assert_eq!(init.load(Ordering::Acquire), 0x44);
    let zero = AtomicU32::new(0);
    assert_eq!(
        write_speedpatch_enabled(8, &zero, false),
        Err("DzsSpeedy.8 contains unsupported state value 0x00000000; DLL/bridge protocol mismatch".to_string())
    );
}

#[test]
fn plans_commands() {
    assert_eq!(handle_command("inject 42", false), CommandPlan::Run(BridgeCommand::Inject(42)));
    assert_eq!(handle_command("  STATUS\t+7  extra", false), CommandPlan::Run(BridgeCommand::Status(7)));
    assert_eq!(handle_command("ENABLE abc", false), CommandPlan::Run(BridgeCommand::Enable(0)));
    assert_eq!(handle_command("DISABLE 4294967296", false), CommandPlan::Run(BridgeCommand::Disable(0)));
    assert_eq!(handle_command("EJECT", false), CommandPlan::Run(BridgeCommand::Eject(0)));
    assert_eq!(handle_command("isenabled 3", true), CommandPlan::Run(BridgeCommand::IsEnabled(3)));
    assert_eq!(
        handle_command("SETSPEED 2.5", false),
        CommandPlan::Run(BridgeCommand::SetSpeed(Some("2.5".to_string())))
    );
    assert_eq!(handle_command("GETSPEED", false), CommandPlan::Run(BridgeCommand::GetSpeed));
    assert_eq!(handle_command("GETSPEED", true), CommandPlan::Reply("ERROR bridge is shutting down".to_string()));
    assert_eq!(handle_command("ping", false), CommandPlan::Reply("OK bridge-filemap-v3".to_string()));
    assert_eq!(handle_command("VERSION", true), CommandPlan::Reply("ERROR bridge is shutting down".to_string()));
    assert_eq!(handle_command("shutdown", true), CommandPlan::Reply("OK shutting down".to_string()));
    assert_eq!(handle_command("", false), CommandPlan::Reply("ERROR unknown command".to_string()));
    assert_eq!(handle_command("FROB 1", false), CommandPlan::Reply("ERROR unknown command".to_string()));
}

#[test]
fn renders_replies() {
    assert_eq!(unit_reply(Ok(())), "OK");
    assert_eq!(unit_reply(Err("bad".to_string())), "ERROR bad");
    assert_eq!(is_enabled_reply(Ok(true)), "OK 1");
    assert_eq!(is_enabled_reply(Ok(false)), "OK 0");
    assert_eq!(status_reply(Ok(InjectionStatus::Enabled)), "OK ENABLED");
    assert_eq!(status_reply(Ok(InjectionStatus::Disabled)), "OK DISABLED");
    assert_eq!(status_reply(Ok(InjectionStatus::Initializing)), "OK INITIALIZING");
    assert_eq!(status_reply(Ok(InjectionStatus::Failed("x".to_string()))), "OK FAILED x");
    assert_eq!(status_reply(Ok(InjectionStatus::NotInjected)), "OK NOT_INJECTED");
    assert_eq!(status_reply(Err("gone".to_string())), "ERROR gone");
}

#[test]
fn admission_step_reports_the_word_it_found() {
    let state = AtomicU32::new(3);
    assert_eq!(admit_operation(&state), Ok(3));
    assert_eq!(active_remote_operations(state.load(Ordering::SeqCst)), 4);
    let closed = AtomicU32::new(OPERATION_SHUTDOWN_BIT | 2);
    assert_eq!(admit_operation(&closed), Err(OPERATION_SHUTDOWN_BIT | 2));
    assert_eq!(closed.load(Ordering::SeqCst), OPERATION_SHUTDOWN_BIT | 2);
}

#[test]
fn state_step_keeps_a_failed_word() {
    let failed = AtomicU32::new(0x46);
    assert_eq!(swap_speedpatch_state(&failed, true), Err(0x46));
    assert_eq!(failed.load(Ordering::SeqCst), 0x46);
    let disabled = AtomicU32::new(0x44);
    assert_eq!(swap_speedpatch_state(&disabled, true), Ok(0x44));
    assert_eq!(disabled.load(Ordering::SeqCst), 0x45);
}
