use dzsspeedy::bridge::handshake::{
    classify_handshake, decode_speedpatch_handshake, HandshakeProgress, SpeedpatchHandshake,
    SpeedpatchState, ERROR_IO_PENDING,
};
use dzsspeedy::bridge::registry::InjectionRegistry;

#[test]
fn does_not_accept_a_terminal_state_before_callback_metadata() {
    for handshake in [
        SpeedpatchHandshake {
            state: SpeedpatchState::Enabled,
            init_result: ERROR_IO_PENDING,
            hook_thread_id: 71,
            callback_completed: false,
        },
        SpeedpatchHandshake {
            state: SpeedpatchState::Enabled,
            init_result: 0,
            hook_thread_id: 0,
            callback_completed: false,
        },
    ] {
        assert_eq!(classify_handshake(handshake), HandshakeProgress::Pending);
    }
}

#[test]
fn does_not_accept_terminal_handshake_before_callback_completion_marker() {
    assert_eq!(
        classify_handshake(SpeedpatchHandshake {
            state: SpeedpatchState::Enabled,
            init_result: 0,
            hook_thread_id: 76,
            callback_completed: false,
        }),
        HandshakeProgress::Pending
    );
}

#[test]
fn accepts_success_that_shutdown_kept_disabled() {
    assert_eq!(
        classify_handshake(SpeedpatchHandshake {
            state: SpeedpatchState::Disabled,
            init_result: 0,
            hook_thread_id: 72,
            callback_completed: true,
        }),
        HandshakeProgress::Complete { callback_thread: 72, state: SpeedpatchState::Disabled }
    );
}

#[test]
fn preserves_failed_callback_result() {
    assert_eq!(
        classify_handshake(SpeedpatchHandshake {
            state: SpeedpatchState::Failed,
            init_result: 0x0209_0008,
            hook_thread_id: 73,
            callback_completed: true,
        }),
        HandshakeProgress::Failed { callback_thread: 73, init_result: 0x0209_0008 }
    );
}

#[test]
fn waits_for_failed_state_after_failure_result_is_published() {
    assert_eq!(
        classify_handshake(SpeedpatchHandshake {
            state: SpeedpatchState::Disabled,
            init_result: 0x0209_0008,
            hook_thread_id: 74,
            callback_completed: false,
        }),
        HandshakeProgress::Pending
    );
}

#[test]
fn decodes_persisted_failure_after_bridge_restart() {
    let registry = InjectionRegistry::new();
    let detail = registry.persisted_initialization_failure(
        4_242_424,
        SpeedpatchHandshake {
            state: SpeedpatchState::Failed,
            init_result: 0x0209_0008,
            hook_thread_id: 75,
            callback_completed: true,
        },
    );

    assert!(detail.contains("callback_thread=75"));
    assert!(detail.contains("GetTickCount"));
    assert!(detail.contains("MH_ERROR_UNSUPPORTED_FUNCTION"));
}

#[test]
fn reports_inconsistent_failed_handshake() {
    assert_eq!(
        classify_handshake(SpeedpatchHandshake {
            state: SpeedpatchState::Failed,
            init_result: 0,
            hook_thread_id: 9,
            callback_completed: true,
        }),
        HandshakeProgress::Invalid(
            "inconsistent callback handshake: state=Failed, init_result=0x00000000, callback_thread=9".to_string()
        )
    );
}

#[test]
fn decodes_handshake_words() {
    let h = decode_speedpatch_handshake(5, 0x45, 0, 0x8000_0007).unwrap();
    assert_eq!(h.state, SpeedpatchState::Enabled);
    assert!(h.callback_completed);
    assert_eq!(h.hook_thread_id, 7);
    let h = decode_speedpatch_handshake(5, 0, 997, 12).unwrap();
    assert_eq!(h.state, SpeedpatchState::Initializing);
    assert!(!h.callback_completed);
    assert_eq!(h.hook_thread_id, 12);
    assert_eq!(
        decode_speedpatch_handshake(5, 0x47, 0, 0).unwrap_err(),
        "DzsSpeedy.5 contains unsupported state value 0x00000047; DLL/bridge protocol mismatch"
    );
}

#[test]
fn recorded_failure_wins_over_the_handshake() {
    let mut registry = InjectionRegistry::new();
    registry.record_injection_failure(9, "earlier failure".to_string());
    let h = SpeedpatchHandshake {
        state: SpeedpatchState::Failed,
        init_result: 0x0209_0008,
        hook_thread_id: 75,
        callback_completed: true,
    };
    assert_eq!(registry.persisted_initialization_failure(9, h), "earlier failure");
    let fresh = InjectionRegistry::new();
    let h0 = SpeedpatchHandshake { init_result: 0, ..h };
    assert_eq!(
        fresh.persisted_initialization_failure(9, h0),
        "SP_Initialize failed for pid=9 without a persisted native error; restart the target before retrying"
    );
}
