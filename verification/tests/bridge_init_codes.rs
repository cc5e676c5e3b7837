use dzsspeedy::bridge::init_codes::{decode_initialize_exit_code, hook_name, minhook_status_name};
use dzsspeedy::bridge::ops::initialization_failure_detail;

#[test]
fn decodes_precise_hook_creation_failure() {
    let code = 0x0200_0000 | (9 << 16) | 8;
    let error = match decode_initialize_exit_code(code) {
        Err(error) => error,
        Ok(()) => panic!("hook failure was accepted"),
    };

    assert!(error.detail.contains("GetTickCount"));
    assert!(error.detail.contains("MH_ERROR_UNSUPPORTED_FUNCTION"));
}

#[test]
fn decodes_enable_and_restart_required_failures() {
    let enable_error = match decode_initialize_exit_code(0x0300_0000 | 10) {
        Err(error) => error,
        Ok(()) => panic!("enable failure was accepted"),
    };
    assert!(enable_error.detail.contains("MH_EnableHook"));

    let restart_error = match decode_initialize_exit_code(0x0700_0000) {
        Err(error) => error,
        Ok(()) => panic!("restart failure was accepted"),
    };
    assert!(restart_error.detail.contains("restart the target"));
}

#[test]
fn decodes_hook_self_reference_failure() {
    let error = match decode_initialize_exit_code(0x0800_0000 | 5) {
        Err(error) => error,
        Ok(()) => panic!("self-reference failure was accepted"),
    };

    assert!(error.detail.contains("self-reference"));
    assert!(error.detail.contains("win32_error=5"));
}

#[test]
fn decodes_hook_completion_event_failure() {
    let error = match decode_initialize_exit_code(0x0900_0000 | 5) {
        Err(error) => error,
        Ok(()) => panic!("completion event failure was accepted"),
    };

    assert!(error.detail.contains("completion event"));
    assert!(error.detail.contains("win32_error=5"));
}

fn detail(code: u32) -> String {
    match decode_initialize_exit_code(code) {
        Err(error) => error.detail,
        Ok(()) => panic!("code {code:#x} was accepted"),
    }
}

#[test]
fn decodes_every_failure_kind_exactly() {
    assert!(decode_initialize_exit_code(0).is_ok());
    assert_eq!(detail(0x0100_0001), "MH_Initialize failed: MH_ERROR_ALREADY_INITIALIZED (1)");
    assert_eq!(detail(0x0209_0008), "MH_CreateHook failed for GetTickCount: MH_ERROR_UNSUPPORTED_FUNCTION (8)");
    assert_eq!(detail(0x0300_000a), "MH_EnableHook(MH_ALL_HOOKS) failed: MH_ERROR_MEMORY_PROTECT (10)");
    assert_eq!(detail(0x0400_0005), "CreateFileMapping(DzsSpeedy status) failed: win32_error=5");
    assert_eq!(detail(0x0500_00b7), "MapViewOfFile(DzsSpeedy status) failed: win32_error=183");
    assert_eq!(detail(0x0600_ffff), "MinHook rollback failed: MH_UNKNOWN (65535)");
    assert_eq!(detail(1), "MinHook initialization failed");
    assert_eq!(detail(2), "one or more time hooks failed to install");
    assert_eq!(detail(3), "shared status mapping initialization failed");
    assert_eq!(detail(170), "SP_Initialize is already running");
    assert_eq!(detail(0x0a00_0001), "SP_Initialize returned code 0x0a000001");
    assert_eq!(detail(0x1234), "SP_Initialize returned code 0x00001234");
}

#[test]
fn names_hooks_and_statuses() {
    assert_eq!(hook_name(1), "Sleep");
    assert_eq!(hook_name(13), "GetSystemTimePreciseAsFileTime");
    assert_eq!(hook_name(14), "unknown hook");
    assert_eq!(minhook_status_name(0), "MH_OK");
    assert_eq!(minhook_status_name(12), "MH_ERROR_FUNCTION_NOT_FOUND");
    assert_eq!(minhook_status_name(13), "MH_STATUS_UNKNOWN");
}

#[test]
fn explains_a_failed_state_without_a_code() {
    assert_eq!(
        initialization_failure_detail(31, 0),
        "speedpatch reported FAILED for pid=31 without an initialization error code"
    );
    assert_eq!(initialization_failure_detail(31, 170), "SP_Initialize is already running");
}
