use dzsspeedy::bridge::handshake::{SpeedpatchHandshake, SpeedpatchState};
use dzsspeedy::bridge::inject::{architecture_check, missing_dll_error, InjectPlan};
use dzsspeedy::bridge::ops::{InjectionStatus, RemoteModule, WriteStep};
use dzsspeedy::bridge::registry::{InjectionRegistry, InjectionStage};

fn handshake(state: SpeedpatchState) -> SpeedpatchHandshake {
    SpeedpatchHandshake { state, init_result: 0, hook_thread_id: 3, callback_completed: true }
}

#[test]
fn status_follows_the_handshake() {
    let mut r = InjectionRegistry::new();
    r.set_injection_stage(5, InjectionStage::Loading);
    assert_eq!(r.status_from_handshake(5, Some(handshake(SpeedpatchState::Enabled))), Some(InjectionStatus::Enabled));
    assert!(r.is_target(5));
    assert!(r.injection_stage(5).is_none());
    assert_eq!(
        r.status_from_handshake(5, Some(handshake(SpeedpatchState::Initializing))),
        Some(InjectionStatus::Initializing)
    );
    assert_eq!(r.injection_stage(5), Some(InjectionStage::Initializing));
    assert_eq!(r.status_from_handshake(5, None), Some(InjectionStatus::Initializing));
    r.clear_injection_stage(5);
    assert_eq!(r.status_from_handshake(5, None), None);
    r.record_injection_failure(5, "boom".to_string());
    assert_eq!(r.status_from_handshake(5, None), Some(InjectionStatus::Failed("boom".to_string())));
    let mut fresh = InjectionRegistry::new();
    fresh.track_target(6);
    assert_eq!(fresh.status_from_module(6, "speedpatch64.dll", None), InjectionStatus::NotInjected);
    assert!(!fresh.is_target(6));
    assert_eq!(
        fresh.status_from_module(6, "speedpatch64.dll", Some(RemoteModule { base: 0x7ff0, path: "C:\\x\\speedpatch64.dll".to_string() })),
        InjectionStatus::Failed(
            "speedpatch64.dll is loaded at 0x7ff0 from C:\\x\\speedpatch64.dll, but DzsSpeedy.6 is absent; SP_Initialize did not complete".to_string()
        )
    );
}

#[test]
fn is_enabled_reads_the_handshake() {
    let r = InjectionRegistry::new();
    assert_eq!(r.do_is_enabled(4, Some(handshake(SpeedpatchState::Enabled))), Ok(true));
    assert_eq!(r.do_is_enabled(4, Some(handshake(SpeedpatchState::Disabled))), Ok(false));
    assert_eq!(
        r.do_is_enabled(4, Some(handshake(SpeedpatchState::Initializing))),
        Err("SP_Initialize is still running for pid=4".to_string())
    );
    assert_eq!(r.do_is_enabled(4, None), Err("no DzsSpeedy.4 mapping".to_string()));
}

#[test]
fn write_loop_retries_until_the_last_attempt() {
    let mut r = InjectionRegistry::new();
    assert!(matches!(r.after_state_write(4, 0, Err("x".to_string())), WriteStep::Retry));
    assert!(matches!(r.after_state_write(4, 28, Err("x".to_string())), WriteStep::Retry));
    match r.after_state_write(4, 29, Err("x".to_string())) {
        WriteStep::Done(result) => assert_eq!(result, Err("x".to_string())),
        WriteStep::Retry => panic!("the last attempt was retried"),
    }
    assert!(!r.is_target(4));
    assert!(matches!(r.after_state_write(4, 3, Ok(())), WriteStep::Done(Ok(()))));
    assert!(r.is_target(4));
}

#[test]
fn injection_plans_reuse_or_refuse_existing_state() {
    let module = || Some(RemoteModule { base: 1, path: "C:\\b\\speedpatch64.dll".to_string() });
    let mut r = InjectionRegistry::new();
    assert!(matches!(
        r.plan_injection(9, "speedpatch64.dll", "C:\\b\\speedpatch64.dll", None, None),
        InjectPlan::Inject
    ));
    assert_eq!(r.injection_stage(9), Some(InjectionStage::Loading));
    assert!(r.is_target(9));
    assert_eq!(
        r.inject_precheck(9),
        Err("INJECTION_PENDING: the existing Loading stage is still running for pid=9".to_string())
    );
    let mut r = InjectionRegistry::new();
    assert!(matches!(
        r.plan_injection(9, "speedpatch64.dll", "p", module(), Some(handshake(SpeedpatchState::Enabled))),
        InjectPlan::Answer(Ok(()))
    ));
    assert!(matches!(
        r.plan_injection(9, "speedpatch64.dll", "p", module(), Some(handshake(SpeedpatchState::Disabled))),
        InjectPlan::EnableExisting
    ));
    match r.plan_injection(9, "speedpatch64.dll", "p", None, Some(handshake(SpeedpatchState::Enabled))) {
        InjectPlan::Answer(Err(e)) => assert_eq!(
            e,
            "DzsSpeedy.9 reports Enabled, but the expected DLL is not loaded from p; refusing a false-positive injection state"
        ),
        _ => panic!("false positive accepted"),
    }
    r.record_injection_failure(9, "old".to_string());
    match r.plan_injection(9, "speedpatch64.dll", "p", module(), None) {
        InjectPlan::Answer(Err(e)) => assert_eq!(
            e,
            "speedpatch64.dll is already loaded in pid=9 from C:\\b\\speedpatch64.dll, but its status mapping is absent. Automatic recovery is disabled so injection always follows one fixed SetWindowsHookExW -> SP_HookProc chain. Previous failure: old. Restart the target process before retrying."
        ),
        _ => panic!("orphan module accepted"),
    }
}

#[test]
fn injection_outcomes_update_the_bookkeeping() {
    let mut r = InjectionRegistry::new();
    assert_eq!(r.injection_completed(3, 11, SpeedpatchState::Enabled, false), (Ok(()), false));
    assert!(r.is_target(3));
    let (result, disable) = r.injection_completed(3, 11, SpeedpatchState::Disabled, true);
    assert!(disable);
    assert_eq!(
        result,
        Err("INJECTION_DISABLED: SP_HookProc initialized pid=3 on thread=11, but acceleration was disabled before completion".to_string())
    );
    assert_eq!(r.injection_pending(3, 12, "waiting"), "INJECTION_PENDING: waiting; callback_thread=12");
    assert_eq!(r.injection_stage(3), Some(InjectionStage::Initializing));
    let failure = r.injection_failed(3, "C:\\d.dll", "no callback");
    assert_eq!(failure, "SetWindowsHookExW injection failed for pid=3, dll=C:\\d.dll: no callback");
    assert_eq!(r.injection_failure(3), Some(failure));
    assert!(r.injection_stage(3).is_none());
    assert_eq!(r.finish_eject(3, Ok(())), Ok(()));
    assert!(!r.is_target(3));
}

#[test]
fn refuses_the_wrong_bridge_and_a_missing_dll() {
    assert_eq!(architecture_check(5, true, true), Ok(()));
    assert_eq!(
        architecture_check(5, true, false),
        Err("bridge/target architecture mismatch: bridge_is64=true target_is64=false pid=5".to_string())
    );
    assert_eq!(
        missing_dll_error("C:\\b\\speedpatch32.dll", "speedpatch32.dll", false),
        "speedpatch DLL missing next to bridge: C:\\b\\speedpatch32.dll (bridge arch=speedpatch32.dll, target is64=false)"
    );
}

#[test]
fn enable_and_disable_prechecks() {
    let mut r = InjectionRegistry::new();
    assert_eq!(r.enable_precheck(2, Some(handshake(SpeedpatchState::Enabled))), Some(Ok(())));
    assert!(r.is_target(2));
    assert_eq!(r.enable_precheck(2, Some(handshake(SpeedpatchState::Disabled))), None);
    assert_eq!(r.enable_precheck(2, None), None);
    assert_eq!(
        r.enable_precheck(2, Some(handshake(SpeedpatchState::Initializing))),
        Some(Err("INJECTION_PENDING: SP_Initialize is still running for pid=2".to_string()))
    );
    assert_eq!(r.disable_precheck(2, Ok(InjectionStatus::NotInjected)), Some(Ok(())));
    assert!(!r.is_target(2));
    assert_eq!(r.disable_precheck(2, Ok(InjectionStatus::Failed("f".to_string()))), Some(Err("f".to_string())));
    assert_eq!(r.disable_precheck(2, Ok(InjectionStatus::Enabled)), None);
    assert_eq!(r.finish_injection_success(2, false), false);
    let mut pids = r.target_pids();
    pids.sort();
    assert_eq!(pids, vec![2]);
}
