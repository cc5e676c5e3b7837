//! The GUI side of the bridge protocol: which pipe and which command each
//! request uses, and how the bridge's one-line reply is read.
use vstd::prelude::*;
use crate::text::{
    chars_eq, chars_of, contains_seq, dec, has_prefix, push_chars_from, push_dec, push_str, push_u32_list, starts_with,
    str_contains, str_eq, string_of, trim_chars, trim_ws, u32_list, utf8_lossy, from_utf8_lossy,
};

verus! {

/// Named pipe served by the 64-bit bridge.
pub const PIPE_64: &'static str = "\\\\.\\pipe\\DzsSpeedyBridge64";

/// Named pipe served by the 32-bit bridge.
pub const PIPE_32: &'static str = "\\\\.\\pipe\\DzsSpeedyBridge32";

/// A unit result seen through the views of its error text.
pub open spec fn unit_outcome(r: Result<(), String>) -> Result<(), Seq<char>> {
    match r {
        Ok(_) => Ok(()),
        Err(e) => Err(e@),
    }
}

/// What a reply to `cmd` means: `OK` succeeds, `ERROR <detail>` fails with the
/// detail, anything else fails as unexpected.
pub open spec fn response_outcome(cmd: Seq<char>, response: Seq<char>) -> Result<(), Seq<char>> {
    if response == "OK"@ {
        Ok(())
    } else if has_prefix(response, "ERROR "@) {
        Err(cmd + ": "@ + response.skip("ERROR "@.len() as int))
    } else {
        Err(cmd + ": unexpected bridge response: "@ + response)
    }
}

/// Reads the bridge's reply to `cmd`.
pub fn bridge_response_result(cmd: &str, response: &str) -> (r: Result<(), String>)
    ensures
        unit_outcome(r) == response_outcome(cmd@, response@),
{
    let resp = chars_of(response);
    let ok = chars_of("OK");
    if chars_eq(resp.as_slice(), ok.as_slice()) {
        return Ok(());
    }
    let err = chars_of("ERROR ");
    let mut msg = string_of(cmd);
    if starts_with(resp.as_slice(), err.as_slice()) {
        push_str(&mut msg, ": ");
        push_chars_from(&mut msg, resp.as_slice(), err.len());
        Err(msg)
    } else {
        push_str(&mut msg, ": unexpected bridge response: ");
        push_str(&mut msg, response);
        Err(msg)
    }
}

/// What a request to the bridge yields: the transport's error, or the
/// bridge's reply read as in `response_outcome`.
pub open spec fn transport_outcome(cmd: Seq<char>, reply: Result<String, String>) -> Result<(), Seq<char>> {
    match reply {
        Ok(r) => response_outcome(cmd, r@),
        Err(e) => Err(e@),
    }
}

/// Sends `cmd` over `pipe` through `exchange` and reads the reply as
/// `OK` / `ERROR <detail>`.
fn expect_ok<F: FnOnce(&str, &str) -> Result<String, String>>(pipe: &str, cmd: &str, exchange: F) -> (r: Result<(), String>)
    requires
        call_requires(exchange, (pipe, cmd)),
    ensures
        exists|reply: Result<String, String>| call_ensures(exchange, (pipe, cmd), reply)
            && unit_outcome(r) == transport_outcome(cmd@, reply),
{
    let reply = exchange(pipe, cmd);
    let ghost observed = reply;
    let r = match reply {
        Ok(response) => bridge_response_result(cmd, response.as_str()),
        Err(e) => Err(e),
    };
    assert(call_ensures(exchange, (pipe, cmd), observed) && unit_outcome(r) == transport_outcome(cmd@, observed));
    r
}

/// One of the two bridges.
#[derive(Debug, Clone, Copy, PartialEq, Eq, Structural)]
pub enum Bridge {
    X64,
    X86,
}

/// The pipe of a bridge.
pub open spec fn pipe_spec(bridge: Bridge) -> Seq<char> {
    match bridge {
        Bridge::X64 => PIPE_64@,
        Bridge::X86 => PIPE_32@,
    }
}

/// The pipe of a bridge.
pub fn pipe_of(bridge: Bridge) -> (p: &'static str)
    ensures
        p@ == pipe_spec(bridge),
{
    match bridge {
        Bridge::X64 => PIPE_64,
        Bridge::X86 => PIPE_32,
    }
}

/// `<verb> <pid>`.
pub open spec fn pid_command(verb: Seq<char>, pid: u32) -> Seq<char> {
    verb + " "@ + dec(pid as nat)
}

fn pid_command_string(verb: &str, pid: u32) -> (c: String)
    ensures
        c@ == pid_command(verb@, pid),
{
    let mut c = string_of(verb);
    push_str(&mut c, " ");
    push_dec(&mut c, pid as u64);
    c
}

/// Sends `<verb> <pid>` to a bridge and reads the reply as `OK` / `ERROR <detail>`.
pub fn bridge_pid_command<F: FnOnce(&str, &str) -> Result<String, String>>(bridge: Bridge, verb: &str, pid: u32, exchange: F) -> (r: Result<(), String>)
    requires
        forall|p: &str, c: &str| call_requires(exchange, (p, c)),
    ensures
        exists|p: &str, c: &str, reply: Result<String, String>|
            p@ == pipe_spec(bridge) && c@ == pid_command(verb@, pid) && call_ensures(exchange, (p, c), reply)
            && unit_outcome(r) == transport_outcome(c@, reply),
{
    let cmd = pid_command_string(verb, pid);
    let pipe = pipe_of(bridge);
    expect_ok(pipe, cmd.as_str(), exchange)
}

/// A health probe succeeds when the transport delivered a reply starting with `OK`.
pub open spec fn health_from_reply(reply: Result<String, String>) -> bool {
    match reply {
        Ok(r) => has_prefix(r@, "OK"@),
        Err(_) => false,
    }
}

/// Check if bridge64 is running and responsive: sends `GETSPEED` over the
/// 64-bit pipe through `exchange` and looks for an `OK` reply.
pub fn bridge64_health<F: FnOnce(&str, &str) -> Result<String, String>>(exchange: F) -> (healthy: bool)
    requires
        forall|p: &str, c: &str| call_requires(exchange, (p, c)),
    ensures
        exists|p: &str, c: &str, reply: Result<String, String>|
            p@ == PIPE_64@ && c@ == "GETSPEED"@ && call_ensures(exchange, (p, c), reply)
            && healthy == health_from_reply(reply),
{
    let reply = exchange(PIPE_64, "GETSPEED");
    match reply {
        Ok(r) => {
            let rc = chars_of(r.as_str());
            let okc = chars_of("OK");
            starts_with(rc.as_slice(), okc.as_slice())
        }
        Err(_) => false,
    }
}

/// Check if bridge32 is running and responsive: sends `GETSPEED` over the
/// 32-bit pipe through `exchange` and looks for an `OK` reply.
pub fn bridge32_health<F: FnOnce(&str, &str) -> Result<String, String>>(exchange: F) -> (healthy: bool)
    requires
        forall|p: &str, c: &str| call_requires(exchange, (p, c)),
    ensures
        exists|p: &str, c: &str, reply: Result<String, String>|
            p@ == PIPE_32@ && c@ == "GETSPEED"@ && call_ensures(exchange, (p, c), reply)
            && healthy == health_from_reply(reply),
{
    let reply = exchange(PIPE_32, "GETSPEED");
    match reply {
        Ok(r) => {
            let rc = chars_of(r.as_str());
            let okc = chars_of("OK");
            starts_with(rc.as_slice(), okc.as_slice())
        },
        Err(_) => false,
    }
}

/// Sends `SHUTDOWN` to bridge64 (fire-and-forget: the bridge exits after
/// receiving it, whatever the reply).
pub fn bridge64_shutdown<F: FnOnce(&str, &str) -> Result<String, String>>(exchange: F)
    requires
        forall|p: &str, c: &str| call_requires(exchange, (p, c)),
    ensures
        exists|p: &str, c: &str, reply: Result<String, String>|
            p@ == PIPE_64@ && c@ == "SHUTDOWN"@ && call_ensures(exchange, (p, c), reply),
{
    let _ = exchange(PIPE_64, "SHUTDOWN");
}

/// Sends `SHUTDOWN` to bridge32 (fire-and-forget: the bridge exits after
/// receiving it, whatever the reply).
pub fn bridge32_shutdown<F: FnOnce(&str, &str) -> Result<String, String>>(exchange: F)
    requires
        forall|p: &str, c: &str| call_requires(exchange, (p, c)),
    ensures
        exists|p: &str, c: &str, reply: Result<String, String>|
            p@ == PIPE_32@ && c@ == "SHUTDOWN"@ && call_ensures(exchange, (p, c), reply),
{
    let _ = exchange(PIPE_32, "SHUTDOWN");
}

/// Injects speedpatch into `pid` through bridge64: `INJECT <pid>`.
pub fn bridge64_inject<F: FnOnce(&str, &str) -> Result<String, String>>(pid: u32, exchange: F) -> (r: Result<(), String>)
    requires
        forall|p: &str, c: &str| call_requires(exchange, (p, c)),
    ensures
        exists|p: &str, c: &str, reply: Result<String, String>|
            p@ == PIPE_64@ && c@ == pid_command("INJECT"@, pid) && call_ensures(exchange, (p, c), reply)
            && unit_outcome(r) == transport_outcome(c@, reply),
{
    bridge_pid_command(Bridge::X64, "INJECT", pid, exchange)
}

/// Injects speedpatch into `pid` through bridge32: `INJECT <pid>`.
pub fn bridge32_inject<F: FnOnce(&str, &str) -> Result<String, String>>(pid: u32, exchange: F) -> (r: Result<(), String>)
    requires
        forall|p: &str, c: &str| call_requires(exchange, (p, c)),
    ensures
        exists|p: &str, c: &str, reply: Result<String, String>|
            p@ == PIPE_32@ && c@ == pid_command("INJECT"@, pid) && call_ensures(exchange, (p, c), reply)
            && unit_outcome(r) == transport_outcome(c@, reply),
{
    bridge_pid_command(Bridge::X86, "INJECT", pid, exchange)
}

/// Enables acceleration of `pid` through bridge64: `ENABLE <pid>`.
pub fn bridge64_enable<F: FnOnce(&str, &str) -> Result<String, String>>(pid: u32, exchange: F) -> (r: Result<(), String>)
    requires
        forall|p: &str, c: &str| call_requires(exchange, (p, c)),
    ensures
        exists|p: &str, c: &str, reply: Result<String, String>|
            p@ == PIPE_64@ && c@ == pid_command("ENABLE"@, pid) && call_ensures(exchange, (p, c), reply)
            && unit_outcome(r) == transport_outcome(c@, reply),
{
    bridge_pid_command(Bridge::X64, "ENABLE", pid, exchange)
}

/// Enables acceleration of `pid` through bridge32: `ENABLE <pid>`.
pub fn bridge32_enable<F: FnOnce(&str, &str) -> Result<String, String>>(pid: u32, exchange: F) -> (r: Result<(), String>)
    requires
        forall|p: &str, c: &str| call_requires(exchange, (p, c)),
    ensures
        exists|p: &str, c: &str, reply: Result<String, String>|
            p@ == PIPE_32@ && c@ == pid_command("ENABLE"@, pid) && call_ensures(exchange, (p, c), reply)
            && unit_outcome(r) == transport_outcome(c@, reply),
{
    bridge_pid_command(Bridge::X86, "ENABLE", pid, exchange)
}

/// Disables acceleration of `pid` through bridge64: `DISABLE <pid>`.
pub fn bridge64_disable<F: FnOnce(&str, &str) -> Result<String, String>>(pid: u32, exchange: F) -> (r: Result<(), String>)
    requires
        forall|p: &str, c: &str| call_requires(exchange, (p, c)),
    ensures
        exists|p: &str, c: &str, reply: Result<String, String>|
            p@ == PIPE_64@ && c@ == pid_command("DISABLE"@, pid) && call_ensures(exchange, (p, c), reply)
            && unit_outcome(r) == transport_outcome(c@, reply),
{
    bridge_pid_command(Bridge::X64, "DISABLE", pid, exchange)
}

/// Disables acceleration of `pid` through bridge32: `DISABLE <pid>`.
pub fn bridge32_disable<F: FnOnce(&str, &str) -> Result<String, String>>(pid: u32, exchange: F) -> (r: Result<(), String>)
    requires
        forall|p: &str, c: &str| call_requires(exchange, (p, c)),
    ensures
        exists|p: &str, c: &str, reply: Result<String, String>|
            p@ == PIPE_32@ && c@ == pid_command("DISABLE"@, pid) && call_ensures(exchange, (p, c), reply)
            && unit_outcome(r) == transport_outcome(c@, reply),
{
    bridge_pid_command(Bridge::X86, "DISABLE", pid, exchange)
}

/// An eject succeeded when the bridge answered exactly `OK`.
pub open spec fn eject_from_reply(reply: Result<String, String>) -> bool {
    match reply {
        Ok(r) => r@ == "OK"@,
        Err(_) => false,
    }
}

/// An eject is reported successful exactly when the bridge delivered the
/// reply `OK`: an `ERROR ...` reply, any other text or a transport failure
/// all report failure.
pub proof fn lemma_eject_succeeds_only_on_ok(reply: Result<String, String>)
    ensures
        eject_from_reply(reply) <==> (reply matches Ok(r) && r@ == "OK"@),
        reply matches Ok(r) && has_prefix(r@, "ERROR "@) ==> !eject_from_reply(reply),
        reply is Err ==> !eject_from_reply(reply),
{
    reveal_strlit("OK");
    reveal_strlit("ERROR ");
    match reply {
        Ok(r) => {
            if has_prefix(r@, "ERROR "@) && r@ == "OK"@ {
                assert(r@.len() >= "ERROR "@.len());
            }
        },
        Err(_) => {},
    }
}

fn reply_is_ok(reply: Result<String, String>) -> (b: bool)
    ensures
        b == eject_from_reply(reply),
{
    match reply {
        Ok(r) => str_eq(r.as_str(), "OK"),
        Err(_) => false,
    }
}

/// Ejects speedpatch from `pid` through bridge64: `EJECT <pid>`.
pub fn bridge64_eject<F: FnOnce(&str, &str) -> Result<String, String>>(pid: u32, exchange: F) -> (ok: bool)
    requires
        forall|p: &str, c: &str| call_requires(exchange, (p, c)),
    ensures
        exists|p: &str, c: &str, reply: Result<String, String>|
            p@ == PIPE_64@ && c@ == pid_command("EJECT"@, pid) && call_ensures(exchange, (p, c), reply)
            && ok == eject_from_reply(reply),
{
    let cmd = pid_command_string("EJECT", pid);
    reply_is_ok(exchange(PIPE_64, cmd.as_str()))
}

/// Ejects speedpatch from `pid` through bridge32: `EJECT <pid>`.
pub fn bridge32_eject<F: FnOnce(&str, &str) -> Result<String, String>>(pid: u32, exchange: F) -> (ok: bool)
    requires
        forall|p: &str, c: &str| call_requires(exchange, (p, c)),
    ensures
        exists|p: &str, c: &str, reply: Result<String, String>|
            p@ == PIPE_32@ && c@ == pid_command("EJECT"@, pid) && call_ensures(exchange, (p, c), reply)
            && ok == eject_from_reply(reply),
{
    let cmd = pid_command_string("EJECT", pid);
    reply_is_ok(exchange(PIPE_32, cmd.as_str()))
}

/// A status reply: enabled, disabled, or nothing known (not injected,
/// still initializing, failed, or no answer).
pub open spec fn status_from_reply(reply: Result<String, String>) -> Option<bool> {
    match reply {
        Ok(r) => if r@ == "OK ENABLED"@ { Some(true) } else if r@ == "OK DISABLED"@ { Some(false) } else { None },
        Err(_) => None,
    }
}

/// The status is known only from the two replies that name it: `OK ENABLED`
/// gives `Some(true)`, `OK DISABLED` gives `Some(false)`, and every other reply
/// (such as `OK NOT_INJECTED` or an error) or a transport failure gives `None`.
pub proof fn lemma_status_known_only_from_its_replies(reply: Result<String, String>)
    ensures
        status_from_reply(reply) == Some(true) <==> (reply matches Ok(r) && r@ == "OK ENABLED"@),
        status_from_reply(reply) == Some(false) <==> (reply matches Ok(r) && r@ == "OK DISABLED"@),
        status_from_reply(reply) is None <==> !(reply matches Ok(r) && (r@ == "OK ENABLED"@ || r@ == "OK DISABLED"@)),
{
    reveal_strlit("OK ENABLED");
    reveal_strlit("OK DISABLED");
    assert("OK ENABLED"@.len() != "OK DISABLED"@.len());
}

fn read_status_reply(reply: Result<String, String>) -> (s: Option<bool>)
    ensures
        s == status_from_reply(reply),
{
    match reply {
        Ok(r) => {
            if str_eq(r.as_str(), "OK ENABLED") {
                Some(true)
            } else if str_eq(r.as_str(), "OK DISABLED") {
                Some(false)
            } else {
                None
            }
        },
        Err(_) => None,
    }
}

/// Queries the injection status of `pid` from bridge64: `Some(true)` =
/// injected and enabled, `Some(false)` = injected and disabled, `None` = not
/// found or error.
pub fn bridge64_get_status<F: FnOnce(&str, &str) -> Result<String, String>>(pid: u32, exchange: F) -> (s: Option<bool>)
    requires
        forall|p: &str, c: &str| call_requires(exchange, (p, c)),
    ensures
        exists|p: &str, c: &str, reply: Result<String, String>|
            p@ == PIPE_64@ && c@ == pid_command("STATUS"@, pid) && call_ensures(exchange, (p, c), reply)
            && s == status_from_reply(reply),
{
    let cmd = pid_command_string("STATUS", pid);
    read_status_reply(exchange(PIPE_64, cmd.as_str()))
}

/// Queries the injection status of `pid` from bridge32 (see `bridge64_get_status`).
pub fn bridge32_get_status<F: FnOnce(&str, &str) -> Result<String, String>>(pid: u32, exchange: F) -> (s: Option<bool>)
    requires
        forall|p: &str, c: &str| call_requires(exchange, (p, c)),
    ensures
        exists|p: &str, c: &str, reply: Result<String, String>|
            p@ == PIPE_32@ && c@ == pid_command("STATUS"@, pid) && call_ensures(exchange, (p, c), reply)
            && s == status_from_reply(reply),
{
    let cmd = pid_command_string("STATUS", pid);
    read_status_reply(exchange(PIPE_32, cmd.as_str()))
}

/// The bridge executable that serves targets of an architecture label:
/// `x86` goes to the 32-bit bridge, everything else to the 64-bit one.
pub fn bridge_name_for_arch(arch: &str) -> (name: &'static str)
    ensures
        name@ == (if arch@ == "x86"@ { "bridge32.exe"@ } else { "bridge64.exe"@ }),
{
    if str_eq(arch, "x86") {
        "bridge32.exe"
    } else {
        "bridge64.exe"
    }
}

/// The bridge for a target architecture label, or the refusal of an unknown one.
pub fn bridge_for_arch(arch: &str) -> (r: Result<Bridge, String>)
    ensures
        arch@ == "x86"@ ==> r == Ok::<Bridge, String>(Bridge::X86),
        arch@ == "x64"@ ==> r == Ok::<Bridge, String>(Bridge::X64),
        arch@ != "x86"@ && arch@ != "x64"@ ==> (r matches Err(e) && e@ == "unsupported target architecture: "@ + arch@),
{
    proof {
        reveal_strlit("x86");
        reveal_strlit("x64");
        assert("x64"@[1] != "x86"@[1]);
    }
    if str_eq(arch, "x86") {
        Ok(Bridge::X86)
    } else if str_eq(arch, "x64") {
        Ok(Bridge::X64)
    } else {
        let mut e = string_of("unsupported target architecture: ");
        push_str(&mut e, arch);
        Err(e)
    }
}

/// The error reports that the bridge is shutting down.
pub open spec fn shutdown_detected_spec(error: Seq<char>) -> bool {
    contains_seq(error, "shutdown is in progress"@) || contains_seq(error, "is shutting down"@)
}

/// Whether an error reports a bridge that is shutting down.
pub fn bridge_shutdown_detected(error: &str) -> (b: bool)
    ensures
        b == shutdown_detected_spec(error@),
{
    str_contains(error, "shutdown is in progress") || str_contains(error, "is shutting down")
}

/// The error calls for repairing the bridge: it is shutting down or its
/// pipe could not be opened.
pub open spec fn needs_repair_spec(error: Seq<char>) -> bool {
    shutdown_detected_spec(error) || contains_seq(error, "open named pipe"@)
}

/// Whether an error calls for repairing the bridge before a retry.
pub fn needs_bridge_repair(error: &str) -> (b: bool)
    ensures
        b == needs_repair_spec(error@),
{
    bridge_shutdown_detected(error) || str_contains(error, "open named pipe")
}

/// Runs a bridge operation; when it fails because the bridge is shutting
/// down or unreachable, repairs the bridge and runs it once more, answering
/// with that second result. Any other first result is the answer.
pub fn bridge_operation<R: Fn() -> Result<(), String>, P: FnOnce()>(run: R, repair: P) -> (r: Result<(), String>)
    requires
        call_requires(run, ()),
        call_requires(repair, ()),
    ensures
        exists|first: Result<(), String>, second: Result<(), String>|
            call_ensures(run, (), first) && call_ensures(run, (), second) && (
            if first matches Err(e) && needs_repair_spec(e@) {
                call_ensures(repair, (), ()) && unit_outcome(r) == unit_outcome(second)
            } else {
                unit_outcome(r) == unit_outcome(first)
            }),
{
    let first = run();
    let ghost observed = first;
    assert(call_ensures(run, (), observed));
    match first {
        Ok(()) => {
            assert(observed is Ok);
            assert(unit_outcome(observed) == Ok::<(), Seq<char>>(()));
            assert(!(observed matches Err(e) && needs_repair_spec(e@)));
            Ok(())
        },
        Err(e) => {
            if needs_bridge_repair(e.as_str()) {
                repair();
                let second = run();
                assert(call_ensures(run, (), second));
                assert(observed matches Err(x) && needs_repair_spec(x@));
                second
            } else {
                assert(!(observed matches Err(x) && needs_repair_spec(x@)));
                Err(e)
            }
        },
    }
}

/// The two bridge executables.
pub open spec fn bridge_names() -> Seq<Seq<char>> {
    seq!["bridge64.exe"@, "bridge32.exe"@]
}

/// The bridges to start: each one that no live child process runs.
pub fn bridges_to_spawn(live: &[String]) -> (names: Vec<&'static str>)
    ensures
        names@.map_values(|n: &'static str| n@) == bridge_names().filter(|n: Seq<char>|
            !(exists|k: int| 0 <= k < live@.len() && #[trigger] live@[k]@ == n)),
{
    let mut names: Vec<&'static str> = Vec::new();
    let candidates: [&'static str; 2] = ["bridge64.exe", "bridge32.exe"];
    let mut i: usize = 0;
    while i < 2
        invariant
            i <= 2,
            candidates@.map_values(|n: &'static str| n@) == bridge_names(),
            names@.map_values(|n: &'static str| n@) == bridge_names().take(i as int).filter(|n: Seq<char>|
                !(exists|k: int| 0 <= k < live@.len() && #[trigger] live@[k]@ == n)),
        decreases 2 - i,
    {
        let name = candidates[i];
        let mut running = false;
        let mut k: usize = 0;
        while k < live.len()
            invariant
                k <= live.len(),
                running == (exists|j: int| 0 <= j < k && #[trigger] live@[j]@ == name@),
            decreases live.len() - k,
        {
            if str_eq(live[k].as_str(), name) {
                running = true;
            }
            k = k + 1;
        }
        proof {
            assert(bridge_names().take(i as int + 1).drop_last() =~= bridge_names().take(i as int));
            assert(candidates@.map_values(|n: &'static str| n@)[i as int] == name@);
            reveal_with_fuel(Seq::filter, 1);
        }
        if !running {
            names.push(name);
        }
        proof {
            assert(names@.map_values(|n: &'static str| n@) =~= bridge_names().take(i as int + 1).filter(|n: Seq<char>|
                !(exists|k: int| 0 <= k < live@.len() && #[trigger] live@[k]@ == n)));
        }
        i = i + 1;
    }
    proof {
        assert(bridge_names().take(2) =~= bridge_names());
    }
    names
}

/// How long the repair waits for a dying bridge to leave its pipe.
pub const REPAIR_WAIT_SECS: u64 = 12;
/// The pause between two looks while waiting for a dying bridge, in milliseconds.
pub const REPAIR_POLL_MS: u64 = 250;
/// How long the repair waits for a fresh bridge to serve its pipe.
pub const REPAIR_SETTLE_SECS: u64 = 3;
/// The pause between two looks while waiting for a fresh bridge, in milliseconds.
pub const REPAIR_SETTLE_POLL_MS: u64 = 100;

/// What one look of a bridge repair decides.
#[derive(Debug, Clone, Copy, PartialEq, Eq, Structural)]
pub enum RepairStep {
    /// A healthy bridge serves the pipe: the repair is done.
    Healthy,
    /// Start the bridge unless a live child already runs it, then let it settle.
    Respawn,
    /// Look again after a pause.
    Wait,
}

/// One look while a dying bridge may still own the pipe: a healthy answer
/// ends the repair; a vanished pipe or the deadline moves on to the respawn.
pub fn repair_wait_step(healthy: bool, pipe_present: bool, deadline_passed: bool) -> (step: RepairStep)
    ensures
        step == (if healthy {
            RepairStep::Healthy
        } else if !pipe_present || deadline_passed {
            RepairStep::Respawn
        } else {
            RepairStep::Wait
        }),
{
    if healthy {
        RepairStep::Healthy
    } else if !pipe_present || deadline_passed {
        RepairStep::Respawn
    } else {
        RepairStep::Wait
    }
}

/// One look while the respawned bridge settles: the settling ends at its
/// deadline (then the operation is retried anyway) or once a healthy bridge
/// answers; `true` to look again after a pause.
pub fn repair_settling(deadline_passed: bool, healthy: bool) -> (again: bool)
    ensures
        again == (!deadline_passed && !healthy),
{
    !deadline_passed && !healthy
}

/// How many times the client tries to open a bridge pipe.
pub const PIPE_OPEN_ATTEMPTS: u32 = 40;
/// The pause between two attempts to open a bridge pipe, in milliseconds.
pub const PIPE_OPEN_RETRY_MS: u64 = 50;

/// The failure when a bridge pipe could not be opened: it names the pipe (as
/// the list of its UTF-16 units, NUL included) and the last error.
pub open spec fn open_pipe_failure_spec(name_units: Seq<u32>, last_error: Seq<char>) -> Seq<char> {
    "open named pipe "@ + u32_list(name_units) + " failed after "@ + dec(PIPE_OPEN_ATTEMPTS as nat) + " attempts: "@
        + last_error
}

/// The failure when a bridge pipe could not be opened.
pub fn open_pipe_failure(name_units: &[u32], last_error: &str) -> (e: String)
    ensures
        e@ == open_pipe_failure_spec(name_units@, last_error@),
{
    let mut e = string_of("open named pipe ");
    push_u32_list(&mut e, name_units);
    push_str(&mut e, " failed after ");
    push_dec(&mut e, PIPE_OPEN_ATTEMPTS as u64);
    push_str(&mut e, " attempts: ");
    push_str(&mut e, last_error);
    proof {
        assert(e@ =~= open_pipe_failure_spec(name_units@, last_error@));
    }
    e
}

/// A bridge that cannot be reached is repaired before the operation is
/// retried: the failure to open its pipe always calls for a repair.
pub proof fn lemma_unreachable_bridge_is_repaired(name_units: Seq<u32>, last_error: Seq<char>)
    ensures
        needs_repair_spec(open_pipe_failure_spec(name_units, last_error)),
{
    reveal_strlit("open named pipe ");
    reveal_strlit("open named pipe");
    let e = open_pipe_failure_spec(name_units, last_error);
    let n = "open named pipe"@;
    assert(e.subrange(0, 0 + n.len() as int) =~= n);
    assert(contains_seq(e, n));
}

/// The reply that a bridge sent to `cmd`: the bytes read, decoded as UTF-8
/// and trimmed, when any arrived; reading nothing is an error.
pub fn pipe_reply(cmd: &str, received: &[u8]) -> (r: Result<String, String>)
    ensures
        received@.len() == 0 ==> (r matches Err(e) && e@ == "pipe read returned no data for "@ + cmd@),
        received@.len() != 0 ==> (r matches Ok(t) && t@ == trim_ws(utf8_lossy(received@))),
{
    if received.len() == 0 {
        let mut e = string_of("pipe read returned no data for ");
        push_str(&mut e, cmd);
        return Err(e);
    }
    let text = from_utf8_lossy(received);
    Ok(trim_chars(chars_of(text.as_str()).as_slice()))
}

} // verus!
