use dzsspeedy::bridge::handshake::{SpeedpatchHandshake, SpeedpatchState};
use dzsspeedy::bridge::hook::{
    hook_cleanup_result, hooks_installed, hooks_woken, log_failure, settle_after_probe, settle_after_recheck,
    settle_after_release, settle_after_wait, thread_error, HookOutcome, HookWait, LogFailure, MonitorAction,
    MonitorEnd, PendingMonitor, SettleStep, WaitStep,
};
use dzsspeedy::bridge::ops::{initialization_failure_detail, RemoteModule};
use dzsspeedy::bridge::registry::{InjectionRegistry, InjectionStage};

fn hs(state: SpeedpatchState, init_result: u32, thread: u32, completed: bool) -> SpeedpatchHandshake {
    SpeedpatchHandshake { state, init_result, hook_thread_id: thread, callback_completed: completed }
}

fn running(thread: u32) -> SpeedpatchHandshake {
    hs(SpeedpatchState::Initializing, 997, thread, false)
}

fn done(state: SpeedpatchState, thread: u32) -> SpeedpatchHandshake {
    hs(state, 0, thread, true)
}

#[test]
fn wait_completes_on_a_terminal_handshake() {
    let mut reg = InjectionRegistry::new();
    let mut w = HookWait::new();
    let step = w.poll(&mut reg, 9, Ok(false), Ok(Some(done(SpeedpatchState::Enabled, 4))), Ok(true), Ok(Some(done(SpeedpatchState::Enabled, 4))), false, false, &[4]);
    assert_eq!(step, WaitStep::Finish(HookOutcome::Complete { callback_thread: 4, state: SpeedpatchState::Enabled }));
    assert!(w.observed_handshake);
}

#[test]
fn wait_marks_a_running_callback_as_initializing() {
    let mut reg = InjectionRegistry::new();
    let mut w = HookWait::new();
    let step = w.poll(&mut reg, 9, Ok(false), Ok(Some(running(4))), Ok(false), Ok(Some(running(4))), false, false, &[4]);
    assert_eq!(step, WaitStep::Sleep);
    assert_eq!(reg.injection_stage(9), Some(InjectionStage::Initializing));
    assert_eq!(w.callback_thread, 4);
}

#[test]
fn wait_reports_a_failed_initialization() {
    let mut reg = InjectionRegistry::new();
    let mut w = HookWait::new();
    let failed = hs(SpeedpatchState::Failed, 0x0100_0010, 4, true);
    let step = w.poll(&mut reg, 9, Ok(false), Ok(Some(failed)), Ok(false), Ok(Some(failed)), false, false, &[4]);
    let expected = format!(
        "SP_HookProc initialization failed for pid=9, callback_thread=4: {}",
        initialization_failure_detail(9, 0x0100_0010)
    );
    assert_eq!(step, WaitStep::Finish(HookOutcome::Failed(expected)));
}

#[test]
fn wait_stops_when_the_target_exits() {
    let mut reg = InjectionRegistry::new();
    let mut w = HookWait::new();
    let step = w.poll(&mut reg, 9, Ok(true), Ok(None), Ok(false), Ok(None), false, false, &[4]);
    assert_eq!(
        step,
        WaitStep::Finish(HookOutcome::Failed("TARGET_EXITED: pid=9 exited while waiting for SP_HookProc".to_string()))
    );
    let step = w.poll(&mut reg, 9, Err("wait failed".to_string()), Ok(None), Ok(false), Ok(None), false, false, &[4]);
    assert_eq!(step, WaitStep::Finish(HookOutcome::Failed("wait failed".to_string())));
}

#[test]
fn completion_without_handshake_needs_the_log() {
    let mut reg = InjectionRegistry::new();
    let mut w = HookWait::new();
    let step = w.poll(&mut reg, 9, Ok(false), Ok(None), Ok(true), Ok(None), false, false, &[4]);
    assert_eq!(step, WaitStep::ReadLog(LogFailure::CompletedWithoutHandshake { callback_thread: 0 }));
    let o = log_failure(9, LogFailure::CompletedWithoutHandshake { callback_thread: 0 }, Some("SP_Install: X FAILED".to_string()), &[4], &[4], "l.log");
    assert_eq!(
        o,
        HookOutcome::Failed("SP_HookProc signaled completion for pid=9, callback_thread=0, but the terminal handshake is unavailable. Native DLL error: SP_Install: X FAILED DLL log: l.log".to_string())
    );
}

#[test]
fn shutdown_interrupts_the_wait() {
    let mut reg = InjectionRegistry::new();
    let mut w = HookWait::new();
    let step = w.poll(&mut reg, 9, Ok(false), Ok(None), Ok(false), Ok(None), true, false, &[4, 5]);
    assert_eq!(
        step,
        WaitStep::Finish(HookOutcome::Failed(
            "bridge shutdown interrupted SetWindowsHookExW injection before callback entry for pid=9, hooked_threads=[4, 5]".to_string()
        ))
    );
    let mut w = HookWait::new();
    let step = w.poll(&mut reg, 9, Ok(false), Ok(Some(running(4))), Ok(false), Ok(Some(running(4))), true, false, &[4]);
    assert_eq!(
        step,
        WaitStep::Finish(HookOutcome::Pending {
            callback_thread: 4,
            detail: "bridge shutdown is waiting for SP_HookProc initialization in pid=9".to_string()
        })
    );
}

#[test]
fn the_module_probe_runs_once_and_names_a_missing_dll() {
    let mut reg = InjectionRegistry::new();
    let mut w = HookWait::new();
    let step = w.poll(&mut reg, 9, Ok(false), Ok(None), Ok(false), Ok(None), false, true, &[4]);
    assert_eq!(step, WaitStep::ProbeModule);
    let step = w.poll(&mut reg, 9, Ok(false), Ok(None), Ok(false), Ok(None), false, true, &[4]);
    assert_eq!(step, WaitStep::Sleep);
    let present = Ok(Some(RemoteModule { base: 0x1000, path: "x".to_string() }));
    assert_eq!(w.after_probe(9, present, Ok(false), "speedpatch64.dll", &[4], &[4], "l.log"), WaitStep::Sleep);
    assert_eq!(w.after_probe(9, Ok(None), Ok(true), "speedpatch64.dll", &[4], &[4], "l.log"), WaitStep::Sleep);
    assert_eq!(
        w.after_probe(9, Ok(None), Ok(false), "speedpatch64.dll", &[4], &[4, 6], "l.log"),
        WaitStep::Finish(HookOutcome::Failed(
            "SetWindowsHookExW installed for pid=9, hooked_threads=[4], posted_threads=[4, 6], but speedpatch64.dll was not loaded into the target within 8s of waking it. The target either rejects the hook-DLL injection (anti-cheat protection) or never dispatches WH_GETMESSAGE callbacks, so SP_HookProc can never run. DLL log: l.log".to_string()
        ))
    );
}

#[test]
fn the_wait_ends_after_its_polls() {
    let w = HookWait::new();
    assert_eq!(w.timed_out(9, Ok(false), Ok(false), Ok(None)), WaitStep::ReadLog(LogFailure::NoHandshake));
    let seen = HookWait { observed_handshake: true, callback_thread: 4, probe_done: false };
    assert_eq!(
        seen.timed_out(9, Ok(false), Ok(false), Ok(None)),
        WaitStep::Finish(HookOutcome::Pending {
            callback_thread: 4,
            detail: "SP_HookProc entered pid=9 on thread=4, but its kernel completion event is still pending after 15s".to_string()
        })
    );
    assert_eq!(
        seen.timed_out(9, Ok(false), Ok(true), Ok(None)),
        WaitStep::ReadLog(LogFailure::CompletedWithoutHandshake { callback_thread: 4 })
    );
    let o = log_failure(9, LogFailure::NoHandshake, None, &[4], &[4], "l.log");
    assert_eq!(
        o,
        HookOutcome::Failed("SetWindowsHookExW installed for pid=9, hooked_threads=[4], posted_threads=[4], but SP_HookProc did not publish its handshake within 15s. DLL log: l.log".to_string())
    );
}

#[test]
fn installing_and_waking_hooks() {
    assert_eq!(hooks_installed(9, &[4, 5], &[5], &[]), Ok(()));
    let errors = vec![thread_error(4, "Error { code: 0x80070005 }"), thread_error(5, "denied")];
    assert_eq!(
        hooks_installed(9, &[4, 5], &[], &errors),
        Err("SetWindowsHookExW(WH_GETMESSAGE, pid=9) failed for all candidates [4, 5]: thread=4: Error { code: 0x80070005 }; thread=5: denied".to_string())
    );
    assert_eq!(hooks_woken(9, &[4], &[4], &[]), Ok(()));
    assert_eq!(
        hooks_woken(9, &[4], &[], &[thread_error(4, "gone")]),
        Err("SetWindowsHookExW installed for pid=9, but PostThreadMessageW(WM_NULL) failed for all hooked threads [4]: thread=4: gone".to_string())
    );
    assert_eq!(hook_cleanup_result(&[]), Ok(()));
    assert_eq!(
        hook_cleanup_result(&["a".to_string(), "b".to_string()]),
        Err("UnhookWindowsHookEx failed; retaining the local DLL reference for active hooks: a; b".to_string())
    );
}

#[test]
fn settling_a_completed_wait_releases_the_hooks() {
    let wait = HookOutcome::Complete { callback_thread: 4, state: SpeedpatchState::Enabled };
    assert_eq!(settle_after_wait(&wait, Ok(None), Ok(false), Ok(None)), SettleStep::ReleaseHooks);
    assert_eq!(
        settle_after_release(9, &wait, Ok(()), Ok(false)),
        SettleStep::Done { outcome: HookOutcome::Complete { callback_thread: 4, state: SpeedpatchState::Enabled }, keep_hooks: false }
    );
    assert_eq!(
        settle_after_release(9, &wait, Err("busy".to_string()), Ok(false)),
        SettleStep::Done {
            outcome: HookOutcome::Pending {
                callback_thread: 4,
                detail: "SP_HookProc completed before hook cleanup failed; hook cleanup remains pending: busy".to_string()
            },
            keep_hooks: true
        }
    );
    assert_eq!(
        settle_after_release(9, &wait, Ok(()), Ok(true)),
        SettleStep::Done { outcome: HookOutcome::Failed("TARGET_EXITED: pid=9 exited after hook cleanup".to_string()), keep_hooks: false }
    );
}

#[test]
fn settling_a_failed_wait_keeps_hooks_while_the_callback_may_run() {
    let wait = HookOutcome::Failed("boom".to_string());
    assert_eq!(
        settle_after_wait(&wait, Ok(Some(running(4))), Ok(false), Ok(Some(running(4)))),
        SettleStep::Done { outcome: HookOutcome::Pending { callback_thread: 0, detail: "boom".to_string() }, keep_hooks: true }
    );
    assert_eq!(settle_after_wait(&wait, Ok(None), Ok(true), Ok(None)), SettleStep::ReleaseHooks);
    assert_eq!(settle_after_release(9, &wait, Ok(()), Ok(false)), SettleStep::Recheck);
    assert_eq!(
        settle_after_recheck(9, "boom", Ok(false), Ok(Some(done(SpeedpatchState::Disabled, 4)))),
        SettleStep::Done { outcome: HookOutcome::Complete { callback_thread: 4, state: SpeedpatchState::Disabled }, keep_hooks: false }
    );
    assert_eq!(
        settle_after_recheck(9, "boom", Ok(false), Ok(Some(running(7)))),
        SettleStep::Done { outcome: HookOutcome::Pending { callback_thread: 7, detail: "boom".to_string() }, keep_hooks: false }
    );
    assert_eq!(settle_after_recheck(9, "boom", Ok(false), Ok(None)), SettleStep::ProbeModule);
    assert_eq!(
        settle_after_recheck(9, "boom", Ok(true), Ok(None)),
        SettleStep::Done { outcome: HookOutcome::Failed("TARGET_EXITED: pid=9 exited after hook callback".to_string()), keep_hooks: false }
    );
    let loaded = Ok(Some(RemoteModule { base: 0x7ffa_0000, path: "p".to_string() }));
    assert_eq!(
        settle_after_probe(9, "boom", "speedpatch64.dll", loaded, Ok(false)),
        HookOutcome::Pending {
            callback_thread: 0,
            detail: "boom; speedpatch64.dll remains loaded at 0x7ffa0000, so the kernel completion event is still being monitored".to_string()
        }
    );
    assert_eq!(settle_after_probe(9, "boom", "speedpatch64.dll", Ok(None), Ok(false)), HookOutcome::Failed("boom".to_string()));
}

#[test]
fn a_pending_wait_keeps_its_hooks() {
    let wait = HookOutcome::Pending { callback_thread: 4, detail: "later".to_string() };
    assert_eq!(
        settle_after_wait(&wait, Ok(None), Ok(false), Ok(None)),
        SettleStep::Done { outcome: HookOutcome::Pending { callback_thread: 4, detail: "later".to_string() }, keep_hooks: true }
    );
}

#[test]
fn monitor_publishes_a_success_after_releasing_hooks() {
    let mut reg = InjectionRegistry::new();
    reg.set_injection_stage(9, InjectionStage::Initializing);
    let mut m = PendingMonitor::new(9, "speedpatch64.dll".to_string(), "INJECTION_PENDING: x".to_string(), true);
    let h = done(SpeedpatchState::Enabled, 4);
    assert_eq!(m.observe(&mut reg, Ok(false), Ok(Some(h)), Ok(true), Ok(Some(h))), MonitorAction::ReleaseHooks);
    assert_eq!(m.hooks_released(Ok(())), MonitorAction::ReadHandshake);
    assert!(!m.holds_hooks());
    assert_eq!(m.handshake_read(&mut reg, Ok(Some(h))), MonitorAction::CheckDeadline);
    assert_eq!(m.deadline_checked(false, false), MonitorAction::CheckBeforePublish);
    assert_eq!(m.publish(&mut reg, Ok(false), false), MonitorAction::Finished(MonitorEnd::Published { disable_target: false }));
    assert_eq!(reg.injection_stage(9), None);
    assert!(reg.is_target(9));
}

#[test]
fn monitor_keeps_waiting_while_hooks_cannot_be_removed() {
    let mut reg = InjectionRegistry::new();
    let mut m = PendingMonitor::new(9, "speedpatch64.dll".to_string(), "INJECTION_PENDING: x".to_string(), true);
    let h = done(SpeedpatchState::Enabled, 4);
    assert_eq!(m.observe(&mut reg, Ok(false), Ok(Some(h)), Ok(true), Ok(Some(h))), MonitorAction::ReleaseHooks);
    assert_eq!(m.hooks_released(Err("busy".to_string())), MonitorAction::ReadHandshake);
    assert!(m.holds_hooks());
    assert_eq!(m.handshake_read(&mut reg, Ok(Some(h))), MonitorAction::CheckDeadline);
    assert_eq!(m.deadline_checked(false, false), MonitorAction::CheckShutdown);
    assert_eq!(m.publish(&mut reg, Ok(false), false), MonitorAction::CheckShutdown);
    assert_eq!(m.shutdown_checked(false), MonitorAction::Sleep);
}

#[test]
fn monitor_forgets_a_target_that_exits() {
    let mut reg = InjectionRegistry::new();
    reg.set_injection_stage(9, InjectionStage::Initializing);
    reg.track_target(9);
    reg.record_injection_failure(9, "old".to_string());
    let mut m = PendingMonitor::new(9, "speedpatch64.dll".to_string(), "p".to_string(), true);
    assert_eq!(m.observe(&mut reg, Ok(true), Ok(None), Ok(false), Ok(None)), MonitorAction::Finished(MonitorEnd::TargetExited));
    assert_eq!(reg.injection_stage(9), None);
    assert_eq!(reg.injection_failure(9), None);
    assert!(!reg.is_target(9));
}

#[test]
fn monitor_records_the_deadline_failure() {
    let mut reg = InjectionRegistry::new();
    let mut m = PendingMonitor::new(9, "speedpatch64.dll".to_string(), "INJECTION_PENDING: x".to_string(), true);
    assert_eq!(m.observe(&mut reg, Ok(false), Ok(None), Ok(false), Ok(None)), MonitorAction::ReadHandshake);
    assert_eq!(m.handshake_read(&mut reg, Ok(None)), MonitorAction::CheckDeadline);
    assert_eq!(m.deadline_checked(false, true), MonitorAction::DropHooks);
    assert_eq!(m.hooks_dropped(), MonitorAction::CheckBeforePublish);
    assert_eq!(m.publish(&mut reg, Ok(false), false), MonitorAction::Finished(MonitorEnd::Published { disable_target: false }));
    assert_eq!(
        reg.injection_failure(9),
        Some("injection did not complete within 30s for pid=9: SP_HookProc never published a handshake and speedpatch64.dll was never observed in the target, so the hook-DLL injection was likely rejected (anti-cheat protection) or no target thread dispatches WH_GETMESSAGE messages. Restart the target before retrying. Last detail: INJECTION_PENDING: x".to_string())
    );
    assert!(reg.is_target(9));
}

#[test]
fn monitor_fails_when_the_dll_is_gone() {
    let mut reg = InjectionRegistry::new();
    let mut m = PendingMonitor::new(9, "speedpatch64.dll".to_string(), "INJECTION_PENDING: x".to_string(), false);
    assert_eq!(m.observe(&mut reg, Ok(false), Ok(None), Ok(false), Ok(None)), MonitorAction::ReadHandshake);
    assert_eq!(m.handshake_read(&mut reg, Ok(None)), MonitorAction::ProbeModule);
    assert_eq!(m.module_probed(&mut reg, Ok(None), Ok(false)), MonitorAction::CheckDeadline);
    assert_eq!(m.deadline_checked(false, false), MonitorAction::CheckBeforePublish);
    assert_eq!(m.publish(&mut reg, Ok(false), true), MonitorAction::Finished(MonitorEnd::Published { disable_target: false }));
    assert_eq!(reg.injection_failure(9), Some("INJECTION_PENDING: x".to_string()));
}

#[test]
fn monitor_names_the_log_when_the_callback_returned_without_a_result() {
    let mut reg = InjectionRegistry::new();
    let mut m = PendingMonitor::new(9, "speedpatch64.dll".to_string(), "p".to_string(), false);
    assert_eq!(m.observe(&mut reg, Ok(false), Ok(None), Ok(true), Ok(None)), MonitorAction::ReadHandshake);
    assert_eq!(m.handshake_read(&mut reg, Ok(None)), MonitorAction::ReadLog);
    assert_eq!(m.log_read(None, "l.log"), MonitorAction::CheckDeadline);
    assert_eq!(m.deadline_checked(false, false), MonitorAction::CheckBeforePublish);
    assert_eq!(m.publish(&mut reg, Ok(false), false), MonitorAction::Finished(MonitorEnd::Published { disable_target: false }));
    assert_eq!(
        reg.injection_failure(9),
        Some("SP_HookProc signaled completion for pid=9, callback_thread=0, but the terminal handshake is unavailable. DLL log: l.log".to_string())
    );
}

#[test]
fn monitor_gives_up_after_the_shutdown_grace() {
    let mut reg = InjectionRegistry::new();
    reg.set_injection_stage(9, InjectionStage::Initializing);
    let mut m = PendingMonitor::new(9, "speedpatch64.dll".to_string(), "p".to_string(), true);
    assert_eq!(m.observe(&mut reg, Ok(false), Ok(Some(running(4))), Ok(false), Ok(Some(running(4)))), MonitorAction::ReadHandshake);
    assert_eq!(m.handshake_read(&mut reg, Ok(Some(running(4)))), MonitorAction::CheckDeadline);
    assert_eq!(m.deadline_checked(true, true), MonitorAction::CheckShutdown);
    assert_eq!(m.shutdown_checked(true), MonitorAction::DisableForShutdown { start_grace: true });
    assert_eq!(m.grace_checked(&mut reg, false), MonitorAction::Sleep);
    assert_eq!(m.shutdown_checked(true), MonitorAction::DisableForShutdown { start_grace: false });
    assert_eq!(m.grace_checked(&mut reg, true), MonitorAction::Finished(MonitorEnd::Abandoned));
    assert_eq!(reg.injection_stage(9), None);
}

#[test]
fn a_success_during_shutdown_asks_for_a_disable() {
    let mut reg = InjectionRegistry::new();
    let mut m = PendingMonitor::new(9, "speedpatch64.dll".to_string(), "p".to_string(), false);
    let h = done(SpeedpatchState::Enabled, 4);
    assert_eq!(m.observe(&mut reg, Ok(false), Ok(Some(h)), Ok(true), Ok(Some(h))), MonitorAction::ReadHandshake);
    assert_eq!(m.handshake_read(&mut reg, Ok(Some(h))), MonitorAction::CheckDeadline);
    assert_eq!(m.deadline_checked(true, false), MonitorAction::CheckBeforePublish);
    assert_eq!(m.publish(&mut reg, Err("wait failed".to_string()), true), MonitorAction::Sleep);
    assert_eq!(m.publish(&mut reg, Ok(false), true), MonitorAction::Finished(MonitorEnd::Published { disable_target: true }));
}
