//! Facts about the target process as the bridge reads them: its
//! architecture, whether it has exited, which of its threads can take the
//! hook, and the names of the kernel objects shared with speedpatch.
use vstd::prelude::*;
use crate::bridge::modules::{hresult_from_win32, hresult_from_win32_spec, ERROR_INVALID_PARAMETER};
use crate::bridge::threads::{hook_thread_order, ordered_hook_threads, HookThreadCandidate};
use crate::text::{chars_of, dec, hex_padded, push_dec, push_hex_padded, push_str, string_of};

verus! {

/// `IMAGE_FILE_MACHINE_UNKNOWN`.
pub const IMAGE_FILE_MACHINE_UNKNOWN: u16 = 0;
/// `IMAGE_FILE_MACHINE_I386`.
pub const IMAGE_FILE_MACHINE_I386: u16 = 0x014c;
/// `IMAGE_FILE_MACHINE_AMD64`.
pub const IMAGE_FILE_MACHINE_AMD64: u16 = 0x8664;
/// `IMAGE_FILE_MACHINE_ARM64`.
pub const IMAGE_FILE_MACHINE_ARM64: u16 = 0xaa64;

/// The refusal for a native ARM64 target.
pub open spec fn arm64_message(pid: u32) -> Seq<char> {
    "pid="@ + dec(pid as nat) + " is native ARM64; this build only provides x86/x64 bridges"@
}

/// Whether a target is 64-bit, from the machines that `IsWow64Process2`
/// reported. An unknown process machine means the target runs natively, so
/// the native machine decides. There is no default: ARM64 and unknown
/// machines are errors, never a guess of x64.
pub open spec fn machine_is64_spec(pid: u32, process_machine: u16, native_machine: u16) -> Result<bool, Seq<char>> {
    if process_machine == IMAGE_FILE_MACHINE_I386 {
        Ok(false)
    } else if process_machine == IMAGE_FILE_MACHINE_AMD64 {
        Ok(true)
    } else if process_machine == IMAGE_FILE_MACHINE_ARM64 {
        Err(arm64_message(pid))
    } else if process_machine == IMAGE_FILE_MACHINE_UNKNOWN {
        if native_machine == IMAGE_FILE_MACHINE_AMD64 {
            Ok(true)
        } else if native_machine == IMAGE_FILE_MACHINE_I386 {
            Ok(false)
        } else if native_machine == IMAGE_FILE_MACHINE_ARM64 {
            Err(arm64_message(pid))
        } else if native_machine == IMAGE_FILE_MACHINE_UNKNOWN {
            Err("IsWow64Process2(pid="@ + dec(pid as nat) + ") returned unknown native architecture"@)
        } else {
            Err("IsWow64Process2(pid="@ + dec(pid as nat) + ") returned unsupported native machine 0x"@
                + hex_padded(native_machine as nat, 4))
        }
    } else {
        Err("IsWow64Process2(pid="@ + dec(pid as nat) + ") returned unsupported process machine 0x"@
            + hex_padded(process_machine as nat, 4))
    }
}

fn arm64_error(pid: u32) -> (e: String)
    ensures
        e@ == arm64_message(pid),
{
    let mut e = string_of("pid=");
    push_dec(&mut e, pid as u64);
    push_str(&mut e, " is native ARM64; this build only provides x86/x64 bridges");
    e
}

/// Whether a target is 64-bit, from the machines reported by `IsWow64Process2`.
pub fn machine_is64(pid: u32, process_machine: u16, native_machine: u16) -> (r: Result<bool, String>)
    ensures
        match r {
            Ok(b) => machine_is64_spec(pid, process_machine, native_machine) == Ok::<bool, Seq<char>>(b),
            Err(e) => machine_is64_spec(pid, process_machine, native_machine) == Err::<bool, Seq<char>>(e@),
        },
{
    if process_machine == IMAGE_FILE_MACHINE_I386 {
        Ok(false)
    } else if process_machine == IMAGE_FILE_MACHINE_AMD64 {
        Ok(true)
    } else if process_machine == IMAGE_FILE_MACHINE_ARM64 {
        Err(arm64_error(pid))
    } else if process_machine == IMAGE_FILE_MACHINE_UNKNOWN {
        if native_machine == IMAGE_FILE_MACHINE_AMD64 {
            Ok(true)
        } else if native_machine == IMAGE_FILE_MACHINE_I386 {
            Ok(false)
        } else if native_machine == IMAGE_FILE_MACHINE_ARM64 {
            Err(arm64_error(pid))
        } else if native_machine == IMAGE_FILE_MACHINE_UNKNOWN {
            let mut e = string_of("IsWow64Process2(pid=");
            push_dec(&mut e, pid as u64);
            push_str(&mut e, ") returned unknown native architecture");
            Err(e)
        } else {
            let mut e = string_of("IsWow64Process2(pid=");
            push_dec(&mut e, pid as u64);
            push_str(&mut e, ") returned unsupported native machine 0x");
            push_hex_padded(&mut e, native_machine as u64, 4);
            Err(e)
        }
    } else {
        let mut e = string_of("IsWow64Process2(pid=");
        push_dec(&mut e, pid as u64);
        push_str(&mut e, ") returned unsupported process machine 0x");
        push_hex_padded(&mut e, process_machine as u64, 4);
        Err(e)
    }
}

/// `WAIT_OBJECT_0`.
pub const WAIT_OBJECT_0: u32 = 0;
/// `WAIT_TIMEOUT`.
pub const WAIT_TIMEOUT: u32 = 0x102;
/// `WAIT_FAILED`.
pub const WAIT_FAILED: u32 = 0xffff_ffff;

/// What a zero-timeout wait on a kernel object says: signaled, not yet, or an
/// error naming `subject` (with the last Win32 error when the wait failed).
pub open spec fn wait_outcome_spec(subject: Seq<char>, wait: u32, last_error: u32) -> Result<bool, Seq<char>> {
    if wait == WAIT_OBJECT_0 {
        Ok(true)
    } else if wait == WAIT_TIMEOUT {
        Ok(false)
    } else if wait == WAIT_FAILED {
        Err("WaitForSingleObject("@ + subject + ") failed: win32_error="@ + dec(last_error as nat))
    } else {
        Err("WaitForSingleObject("@ + subject + ") returned 0x"@ + hex_padded(wait as nat, 8))
    }
}

fn wait_outcome(subject: String, wait: u32, last_error: u32) -> (r: Result<bool, String>)
    ensures
        match r {
            Ok(b) => wait_outcome_spec(subject@, wait, last_error) == Ok::<bool, Seq<char>>(b),
            Err(e) => wait_outcome_spec(subject@, wait, last_error) == Err::<bool, Seq<char>>(e@),
        },
{
    if wait == WAIT_OBJECT_0 {
        Ok(true)
    } else if wait == WAIT_TIMEOUT {
        Ok(false)
    } else if wait == WAIT_FAILED {
        let mut e = string_of("WaitForSingleObject(");
        push_str(&mut e, subject.as_str());
        push_str(&mut e, ") failed: win32_error=");
        push_dec(&mut e, last_error as u64);
        Err(e)
    } else {
        let mut e = string_of("WaitForSingleObject(");
        push_str(&mut e, subject.as_str());
        push_str(&mut e, ") returned 0x");
        push_hex_padded(&mut e, wait as u64, 8);
        Err(e)
    }
}

/// Whether the target process has exited, from a zero-timeout wait on it.
pub fn target_exit_outcome(pid: u32, wait: u32, last_error: u32) -> (r: Result<bool, String>)
    ensures
        match r {
            Ok(b) => wait_outcome_spec("target pid="@ + dec(pid as nat), wait, last_error) == Ok::<bool, Seq<char>>(b),
            Err(e) => wait_outcome_spec("target pid="@ + dec(pid as nat), wait, last_error) == Err::<bool, Seq<char>>(e@),
        },
{
    let mut subject = string_of("target pid=");
    push_dec(&mut subject, pid as u64);
    wait_outcome(subject, wait, last_error)
}

/// The name of the event that the hook callback signals on completion.
pub open spec fn completion_event_name_spec(pid: u32) -> Seq<char> {
    "DzsSpeedyHookComplete."@ + dec(pid as nat)
}

/// The name of the event that the hook callback signals on completion.
pub fn completion_event_name(pid: u32) -> (n: String)
    ensures
        n@ == completion_event_name_spec(pid),
{
    let mut n = string_of("DzsSpeedyHookComplete.");
    push_dec(&mut n, pid as u64);
    n
}

/// Whether the completion event is signaled, from a zero-timeout wait on it.
pub fn completion_signal_outcome(pid: u32, wait: u32, last_error: u32) -> (r: Result<bool, String>)
    ensures
        match r {
            Ok(b) => wait_outcome_spec(completion_event_name_spec(pid), wait, last_error) == Ok::<bool, Seq<char>>(b),
            Err(e) => wait_outcome_spec(completion_event_name_spec(pid), wait, last_error) == Err::<bool, Seq<char>>(e@),
        },
{
    wait_outcome(completion_event_name(pid), wait, last_error)
}

/// Records a window of the target: its owning thread becomes a candidate
/// once, with the visibility of the first window seen for it.
pub fn add_window_candidate(candidates: &mut Vec<HookThreadCandidate>, target_pid: u32, window_pid: u32, thread_id: u32, visible: bool)
    ensures
        final(candidates)@ == (if window_pid == target_pid && thread_id != 0
            && !(exists|k: int| 0 <= k < old(candidates)@.len() && #[trigger] old(candidates)@[k].thread_id == thread_id) {
            old(candidates)@.push(HookThreadCandidate { thread_id, visible })
        } else {
            old(candidates)@
        }),
{
    if window_pid != target_pid || thread_id == 0 {
        return;
    }
    let mut i: usize = 0;
    while i < candidates.len()
        invariant
            i <= candidates.len(),
            candidates@ == old(candidates)@,
            forall|k: int| 0 <= k < i ==> #[trigger] candidates@[k].thread_id != thread_id,
        decreases candidates.len() - i,
    {
        if candidates[i].thread_id == thread_id {
            return;
        }
        i = i + 1;
    }
    candidates.push(HookThreadCandidate { thread_id, visible });
}

/// The nonzero threads owned by `pid`, in snapshot order, from the
/// `(owner pid, thread id)` pairs of a thread snapshot.
pub fn threads_of_process(entries: &[(u32, u32)], pid: u32) -> (threads: Vec<u32>)
    ensures
        threads@ == entries@.filter(|e: (u32, u32)| e.0 == pid && e.1 != 0).map_values(|e: (u32, u32)| e.1),
{
    let mut threads: Vec<u32> = Vec::new();
    let mut i: usize = 0;
    while i < entries.len()
        invariant
            i <= entries.len(),
            threads@ == entries@.take(i as int).filter(|e: (u32, u32)| e.0 == pid && e.1 != 0).map_values(|e: (u32, u32)| e.1),
        decreases entries.len() - i,
    {
        let (owner, tid) = entries[i];
        proof {
            assert(entries@.take(i as int + 1).drop_last() =~= entries@.take(i as int));
            reveal_with_fuel(Seq::filter, 1);
        }
        if owner == pid && tid != 0 {
            threads.push(tid);
        }
        i = i + 1;
    }
    proof {
        assert(entries@.take(entries@.len() as int) =~= entries@);
    }
    threads
}

/// The hook targets for `pid` from its window owners and its threads, in
/// hook order; an error when there is none.
pub fn target_hook_threads(pid: u32, window_candidates: &[HookThreadCandidate], process_threads: &[u32]) -> (r: Result<Vec<u32>, String>)
    ensures
        match r {
            Ok(t) => t@ == hook_thread_order(window_candidates@, process_threads@) && t@.len() > 0,
            Err(e) => hook_thread_order(window_candidates@, process_threads@).len() == 0
                && e@ == "no hook thread candidate is available for pid="@ + dec(pid as nat),
        },
{
    let ordered = ordered_hook_threads(window_candidates, process_threads);
    if ordered.len() == 0 {
        let mut e = string_of("no hook thread candidate is available for pid=");
        push_dec(&mut e, pid as u64);
        return Err(e);
    }
    Ok(ordered)
}

/// UTF-16 code units of a string.
pub open spec fn utf16_encode(s: Seq<char>) -> Seq<u16>
    decreases s.len(),
{
    if s.len() == 0 {
        seq![]
    } else {
        let n = s[0] as u32;
        let head: Seq<u16> = if n <= 0xffff {
            seq![n as u16]
        } else {
            seq![(0xd800 + (n - 0x10000) / 0x400) as u16, (0xdc00 + (n - 0x10000) % 0x400) as u16]
        };
        head + utf16_encode(s.drop_first())
    }
}

/// A string as a NUL-terminated wide string for Win32 calls.
pub fn to_wide(s: &str) -> (w: Vec<u16>)
    ensures
        w@ == utf16_encode(s@).push(0),
{
    let v = chars_of(s);
    let mut w: Vec<u16> = Vec::new();
    let mut i: usize = v.len();
    // Encode from the back so that each step prepends one character's units.
    let mut rev: Vec<u16> = Vec::new();
    let ghost mut done: Seq<u16> = seq![];
    while i > 0
        invariant
            i <= v.len(),
            v@ == s@,
            done == utf16_encode(v@.skip(i as int)),
            rev@ == done.reverse(),
        decreases i,
    {
        i = i - 1;
        let n = v[i] as u32;
        proof {
            assert(v@.skip(i as int).drop_first() =~= v@.skip(i as int + 1));
            assert(v@.skip(i as int)[0] == v@[i as int]);
        }
        if n <= 0xffff {
            rev.push(n as u16);
            proof {
                done = seq![n as u16] + done;
                assert(rev@ =~= done.reverse());
            }
        } else {
            let m = n - 0x10000;
            let lo = (0xdc00 + m % 0x400) as u16;
            let hi = (0xd800 + m / 0x400) as u16;
            rev.push(lo);
            rev.push(hi);
            proof {
                done = seq![hi, lo] + done;
                assert(rev@ =~= done.reverse());
            }
        }
    }
    proof { assert(v@.skip(0) =~= v@); }
    let mut j: usize = rev.len();
    while j > 0
        invariant
            j <= rev.len(),
            w@ == rev@.skip(j as int).reverse(),
        decreases j,
    {
        j = j - 1;
        w.push(rev[j]);
        proof { assert(w@ =~= rev@.skip(j as int).reverse()); }
    }
    proof {
        assert(rev@.skip(0) =~= rev@);
        assert(done.reverse().reverse() =~= done);
    }
    w.push(0);
    w
}

/// `DzsSpeedy.<pid>`, the handshake mapping speedpatch creates for a target.
pub open spec fn speedpatch_map_text(pid: u32) -> Seq<char> {
    "DzsSpeedy."@ + dec(pid as nat)
}

/// The wide name of a target's handshake mapping.
pub fn speedpatch_map_name(pid: u32) -> (w: Vec<u16>)
    ensures
        w@ == utf16_encode(speedpatch_map_text(pid)).push(0),
{
    let mut n = string_of("DzsSpeedy.");
    push_dec(&mut n, pid as u64);
    to_wide(n.as_str())
}

/// The wide name of the cross-process speed-factor mapping.
pub fn global_speed_map_name() -> (w: Vec<u16>)
    ensures
        w@ == utf16_encode("DzsSpeedy.SpeedFactor"@).push(0),
{
    to_wide("DzsSpeedy.SpeedFactor")
}

/// The speedpatch DLL for a target bitness.
pub fn speedpatch_dll(is64: bool) -> (name: &'static str)
    ensures
        name@ == (if is64 { "speedpatch64.dll"@ } else { "speedpatch32.dll"@ }),
{
    if is64 {
        "speedpatch64.dll"
    } else {
        "speedpatch32.dll"
    }
}

/// Why opening the target for waiting failed: a pid that is no longer valid
/// (`HRESULT_FROM_WIN32(ERROR_INVALID_PARAMETER)`) means the target already
/// exited; any other error is reported with its debug text.
pub fn open_target_failure(pid: u32, code: u32, error_debug: &str) -> (e: String)
    ensures
        code == hresult_from_win32_spec(ERROR_INVALID_PARAMETER) ==> e@ == "TARGET_EXITED: pid="@ + dec(pid as nat)
            + " exited before hook installation"@,
        code != hresult_from_win32_spec(ERROR_INVALID_PARAMETER) ==> e@ == "OpenProcess(PROCESS_SYNCHRONIZE, pid="@
            + dec(pid as nat) + ") failed: "@ + error_debug@,
{
    if code == hresult_from_win32(ERROR_INVALID_PARAMETER) {
        let mut e = string_of("TARGET_EXITED: pid=");
        push_dec(&mut e, pid as u64);
        push_str(&mut e, " exited before hook installation");
        e
    } else {
        let mut e = string_of("OpenProcess(PROCESS_SYNCHRONIZE, pid=");
        push_dec(&mut e, pid as u64);
        push_str(&mut e, ") failed: ");
        push_str(&mut e, error_debug);
        e
    }
}

} // verus!
