use dzsspeedy::bridge::target::{
    completion_event_name, completion_signal_outcome, global_speed_map_name, machine_is64,
    speedpatch_dll, speedpatch_map_name, target_exit_outcome, target_hook_threads, threads_of_process, to_wide,
    IMAGE_FILE_MACHINE_AMD64, IMAGE_FILE_MACHINE_ARM64, IMAGE_FILE_MACHINE_I386, IMAGE_FILE_MACHINE_UNKNOWN,
    WAIT_FAILED, WAIT_OBJECT_0, WAIT_TIMEOUT,
};
use dzsspeedy::bridge::threads::HookThreadCandidate;

#[test]
fn wow64_targets_are_32_bit_and_native_ones_follow_the_machine() {
    assert_eq!(machine_is64(1, IMAGE_FILE_MACHINE_I386, IMAGE_FILE_MACHINE_AMD64), Ok(false));
    assert_eq!(machine_is64(1, IMAGE_FILE_MACHINE_UNKNOWN, IMAGE_FILE_MACHINE_AMD64), Ok(true));
    assert_eq!(machine_is64(1, IMAGE_FILE_MACHINE_UNKNOWN, IMAGE_FILE_MACHINE_I386), Ok(false));
    assert_eq!(machine_is64(1, IMAGE_FILE_MACHINE_AMD64, IMAGE_FILE_MACHINE_ARM64), Ok(true));
}

#[test]
fn arm64_and_unknown_machines_are_errors() {
    assert_eq!(
        machine_is64(12, IMAGE_FILE_MACHINE_UNKNOWN, IMAGE_FILE_MACHINE_ARM64),
        Err("pid=12 is native ARM64; this build only provides x86/x64 bridges".to_string())
    );
    assert_eq!(
        machine_is64(12, IMAGE_FILE_MACHINE_UNKNOWN, IMAGE_FILE_MACHINE_UNKNOWN),
        Err("IsWow64Process2(pid=12) returned unknown native architecture".to_string())
    );
    assert_eq!(
        machine_is64(12, 0x01c4, IMAGE_FILE_MACHINE_AMD64),
        Err("IsWow64Process2(pid=12) returned unsupported process machine 0x01c4".to_string())
    );
    assert_eq!(
        machine_is64(12, IMAGE_FILE_MACHINE_UNKNOWN, 0x1c4),
        Err("IsWow64Process2(pid=12) returned unsupported native machine 0x01c4".to_string())
    );
}

#[test]
fn zero_timeout_waits_are_decoded() {
    assert_eq!(target_exit_outcome(3, WAIT_OBJECT_0, 0), Ok(true));
    assert_eq!(target_exit_outcome(3, WAIT_TIMEOUT, 0), Ok(false));
    assert_eq!(
        target_exit_outcome(3, WAIT_FAILED, 6),
        Err("WaitForSingleObject(target pid=3) failed: win32_error=6".to_string())
    );
    assert_eq!(
        completion_signal_outcome(3, 0x80, 0),
        Err("WaitForSingleObject(DzsSpeedyHookComplete.3) returned 0x00000080".to_string())
    );
    assert_eq!(completion_signal_outcome(3, WAIT_OBJECT_0, 0), Ok(true));
}

#[test]
fn names_the_kernel_objects() {
    assert_eq!(completion_event_name(77), "DzsSpeedyHookComplete.77");
    let expected: Vec<u16> = "DzsSpeedy.77".encode_utf16().chain(std::iter::once(0)).collect();
    assert_eq!(speedpatch_map_name(77), expected);
    let expected: Vec<u16> = "DzsSpeedy.SpeedFactor".encode_utf16().chain(std::iter::once(0)).collect();
    assert_eq!(global_speed_map_name(), expected);
    assert_eq!(speedpatch_dll(true), "speedpatch64.dll");
    assert_eq!(speedpatch_dll(false), "speedpatch32.dll");
}

#[test]
fn wide_strings_are_utf16_with_a_terminator() {
    assert_eq!(to_wide(""), vec![0]);
    assert_eq!(to_wide("aé𝄞"), vec![0x61, 0xe9, 0xd834, 0xdd1e, 0]);
}

#[test]
fn threads_of_a_process_in_snapshot_order() {
    let entries = vec![(5, 20), (6, 21), (5, 0), (5, 22)];
    assert_eq!(threads_of_process(&entries, 5), vec![20, 22]);
    assert_eq!(threads_of_process(&entries, 9), Vec::<u32>::new());
}

#[test]
fn hook_threads_prefer_visible_windows() {
    let c = vec![
        HookThreadCandidate { thread_id: 30, visible: false },
        HookThreadCandidate { thread_id: 31, visible: true },
    ];
    assert_eq!(target_hook_threads(5, &c, &[32, 31, 30]), Ok(vec![31, 30, 32]));
    assert_eq!(
        target_hook_threads(5, &[], &[]),
        Err("no hook thread candidate is available for pid=5".to_string())
    );
}
