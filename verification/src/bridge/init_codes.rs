//! Decoding the initialization result that speedpatch publishes: the top byte
//! names the failing step, the low bits carry a MinHook status or a Win32 error.
use vstd::prelude::*;
use crate::text::{dec, hex_padded, push_dec, push_hex_padded, push_str, string_of};

verus! {

/// The hooked time function with the given id.
pub open spec fn hook_name_spec(id: u32) -> Seq<char> {
    if id == 1 { "Sleep"@ } else if id == 2 { "SleepEx"@ } else if id == 3 { "SetWaitableTimer"@ }
    else if id == 4 { "SetWaitableTimerEx"@ } else if id == 5 { "SetTimer"@ } else if id == 6 { "timeGetTime"@ }
    else if id == 7 { "timeSetEvent"@ } else if id == 8 { "GetMessageTime"@ } else if id == 9 { "GetTickCount"@ }
    else if id == 10 { "GetTickCount64"@ } else if id == 11 { "QueryPerformanceCounter"@ }
    else if id == 12 { "GetSystemTimeAsFileTime"@ } else if id == 13 { "GetSystemTimePreciseAsFileTime"@ }
    else { "unknown hook"@ }
}

/// The hooked time function with the given id.
pub fn hook_name(id: u32) -> (name: &'static str)
    ensures
        name@ == hook_name_spec(id),
{
    match id {
        1 => "Sleep",
        2 => "SleepEx",
        3 => "SetWaitableTimer",
        4 => "SetWaitableTimerEx",
        5 => "SetTimer",
        6 => "timeGetTime",
        7 => "timeSetEvent",
        8 => "GetMessageTime",
        9 => "GetTickCount",
        10 => "GetTickCount64",
        11 => "QueryPerformanceCounter",
        12 => "GetSystemTimeAsFileTime",
        13 => "GetSystemTimePreciseAsFileTime",
        _ => "unknown hook",
    }
}

/// The MinHook status constant with the given value.
pub open spec fn minhook_status_spec(status: u32) -> Seq<char> {
    if status == 0 { "MH_OK"@ } else if status == 1 { "MH_ERROR_ALREADY_INITIALIZED"@ }
    else if status == 2 { "MH_ERROR_NOT_INITIALIZED"@ } else if status == 3 { "MH_ERROR_ALREADY_CREATED"@ }
    else if status == 4 { "MH_ERROR_NOT_CREATED"@ } else if status == 5 { "MH_ERROR_ENABLED"@ }
    else if status == 6 { "MH_ERROR_DISABLED"@ } else if status == 7 { "MH_ERROR_NOT_EXECUTABLE"@ }
    else if status == 8 { "MH_ERROR_UNSUPPORTED_FUNCTION"@ } else if status == 9 { "MH_ERROR_MEMORY_ALLOC"@ }
    else if status == 10 { "MH_ERROR_MEMORY_PROTECT"@ } else if status == 11 { "MH_ERROR_MODULE_NOT_FOUND"@ }
    else if status == 12 { "MH_ERROR_FUNCTION_NOT_FOUND"@ } else if status == 0xffff { "MH_UNKNOWN"@ }
    else { "MH_STATUS_UNKNOWN"@ }
}

/// The MinHook status constant with the given value.
pub fn minhook_status_name(status: u32) -> (name: &'static str)
    ensures
        name@ == minhook_status_spec(status),
{
    match status {
        0 => "MH_OK",
        1 => "MH_ERROR_ALREADY_INITIALIZED",
        2 => "MH_ERROR_NOT_INITIALIZED",
        3 => "MH_ERROR_ALREADY_CREATED",
        4 => "MH_ERROR_NOT_CREATED",
        5 => "MH_ERROR_ENABLED",
        6 => "MH_ERROR_DISABLED",
        7 => "MH_ERROR_NOT_EXECUTABLE",
        8 => "MH_ERROR_UNSUPPORTED_FUNCTION",
        9 => "MH_ERROR_MEMORY_ALLOC",
        10 => "MH_ERROR_MEMORY_PROTECT",
        11 => "MH_ERROR_MODULE_NOT_FOUND",
        12 => "MH_ERROR_FUNCTION_NOT_FOUND",
        0xffff => "MH_UNKNOWN",
        _ => "MH_STATUS_UNKNOWN",
    }
}

/// A failed initialization, explained.
pub struct InitializationError {
    pub detail: String,
}

/// `<status name> (<status>)` for the MinHook status in the low 16 bits.
pub open spec fn status_part(code: u32) -> Seq<char> {
    minhook_status_spec((code % 0x10000) as u32) + " ("@ + dec((code % 0x10000) as nat) + ")"@
}

/// The explanation of an initialization result; `None` for success (zero).
pub open spec fn init_failure_message(code: u32) -> Option<Seq<char>> {
    let kind = code / 0x0100_0000;
    let win32 = dec((code % 0x0100_0000) as nat);
    if kind == 1 {
        Some("MH_Initialize failed: "@ + status_part(code))
    } else if kind == 2 {
        Some("MH_CreateHook failed for "@ + hook_name_spec(((code / 0x10000) % 0x100) as u32) + ": "@ + status_part(code))
    } else if kind == 3 {
        Some("MH_EnableHook(MH_ALL_HOOKS) failed: "@ + status_part(code))
    } else if kind == 4 {
        Some("CreateFileMapping(DzsSpeedy status) failed: win32_error="@ + win32)
    } else if kind == 5 {
        Some("MapViewOfFile(DzsSpeedy status) failed: win32_error="@ + win32)
    } else if kind == 6 {
        Some("MinHook rollback failed: "@ + status_part(code))
    } else if kind == 7 {
        Some("a previous hook-enable rollback left speedpatch non-retryable; restart the target process before injecting again"@)
    } else if kind == 8 {
        Some("speedpatch hook callback could not acquire its DLL self-reference: win32_error="@ + win32)
    } else if kind == 9 {
        Some("speedpatch hook callback could not open its bridge completion event: win32_error="@ + win32)
    } else if code == 0 {
        None
    } else if code == 1 {
        Some("MinHook initialization failed"@)
    } else if code == 2 {
        Some("one or more time hooks failed to install"@)
    } else if code == 3 {
        Some("shared status mapping initialization failed"@)
    } else if code == 170 {
        Some("SP_Initialize is already running"@)
    } else {
        Some("SP_Initialize returned code 0x"@ + hex_padded(code as nat, 8))
    }
}

fn push_status(msg: &mut String, code: u32)
    ensures
        final(msg)@ == old(msg)@ + status_part(code),
{
    let status = code & 0xffff;
    assert(code & 0xffff == code % 0x10000) by (bit_vector);
    push_str(msg, minhook_status_name(status));
    push_str(msg, " (");
    push_dec(msg, status as u64);
    push_str(msg, ")");
}

/// Decodes speedpatch's initialization result: `Ok` exactly for zero, else the
/// failing step with its MinHook status or Win32 error.
pub fn decode_initialize_exit_code(code: u32) -> (r: Result<(), InitializationError>)
    ensures
        match r {
            Ok(_) => init_failure_message(code) is None,
            Err(e) => init_failure_message(code) == Some(e.detail@),
        },
        r is Ok <==> code == 0,
{
    let kind = code & 0xff00_0000;
    assert(code & 0xff00_0000 == (code / 0x0100_0000) * 0x0100_0000) by (bit_vector);
    assert(code & 0x00ff_ffff == code % 0x0100_0000) by (bit_vector);
    assert((code >> 16) & 0xff == (code / 0x10000) % 0x100) by (bit_vector);
    let win32 = (code & 0x00ff_ffff) as u64;
    let mut detail;
    if kind == 0x0100_0000 {
        detail = string_of("MH_Initialize failed: ");
        push_status(&mut detail, code);
    } else if kind == 0x0200_0000 {
        detail = string_of("MH_CreateHook failed for ");
        push_str(&mut detail, hook_name((code >> 16) & 0xff));
        push_str(&mut detail, ": ");
        push_status(&mut detail, code);
    } else if kind == 0x0300_0000 {
        detail = string_of("MH_EnableHook(MH_ALL_HOOKS) failed: ");
        push_status(&mut detail, code);
    } else if kind == 0x0400_0000 {
        detail = string_of("CreateFileMapping(DzsSpeedy status) failed: win32_error=");
        push_dec(&mut detail, win32);
    } else if kind == 0x0500_0000 {
        detail = string_of("MapViewOfFile(DzsSpeedy status) failed: win32_error=");
        push_dec(&mut detail, win32);
    } else if kind == 0x0600_0000 {
        detail = string_of("MinHook rollback failed: ");
        push_status(&mut detail, code);
    } else if kind == 0x0700_0000 {
        detail = string_of("a previous hook-enable rollback left speedpatch non-retryable; restart the target process before injecting again");
    } else if kind == 0x0800_0000 {
        detail = string_of("speedpatch hook callback could not acquire its DLL self-reference: win32_error=");
        push_dec(&mut detail, win32);
    } else if kind == 0x0900_0000 {
        detail = string_of("speedpatch hook callback could not open its bridge completion event: win32_error=");
        push_dec(&mut detail, win32);
    } else if code == 0 {
        return Ok(());
    } else if code == 1 {
        detail = string_of("MinHook initialization failed");
    } else if code == 2 {
        detail = string_of("one or more time hooks failed to install");
    } else if code == 3 {
        detail = string_of("shared status mapping initialization failed");
    } else if code == 170 {
        detail = string_of("SP_Initialize is already running");
    } else {
        detail = string_of("SP_Initialize returned code 0x");
        push_hex_padded(&mut detail, code as u64, 8);
    }
    Err(InitializationError { detail })
}

} // verus!
