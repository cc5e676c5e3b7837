//! The hook-based injection as decisions: waiting for the hook callback,
//! settling the injection after the wait, and the monitor that takes over a
//! pending injection. The caller performs every Win32 reading and action that
//! a step asks for and hands the result to the next step.
use vstd::prelude::*;
use crate::bridge::handshake::{
    classify_handshake, handshake_verdict, HandshakeProgress, HandshakeVerdict, SpeedpatchHandshake, SpeedpatchState,
};
use crate::bridge::logs::{completed_without_terminal_handshake_detail, native_detail_spec};
use crate::bridge::ops::{failure_detail_spec, initialization_failure_detail, RemoteModule};
use crate::bridge::registry::{InjectionRegistry, InjectionStage};
use crate::text::{
    dec, hex, joined, push_dec, push_hex, push_joined, push_str, push_u32_list, string_of, strings_view, u32_list,
};

verus! {

/// The number of 50 ms polls of the hook wait (15 s).
pub const HOOK_WAIT_POLLS: u32 = 300;
/// The pause between two polls, in milliseconds.
pub const POLL_INTERVAL_MS: u64 = 50;
/// After this many seconds without any sign of the callback, the wait checks
/// whether the DLL was loaded into the target at all.
pub const DLL_INJECTION_PROBE_GRACE_SECS: u64 = 8;
/// How long a pending-injection monitor keeps waiting once shutdown started.
pub const SHUTDOWN_PENDING_GRACE_SECS: u64 = 2;
/// How long a pending-injection monitor waits without any terminal result.
pub const PENDING_INJECTION_DEADLINE_SECS: u64 = 30;

/// The result that the hook callback published.
#[derive(Debug, PartialEq, Eq)]
pub enum CallbackResult {
    /// Initialized, with acceleration in `state` (enabled or disabled).
    Completed { callback_thread: u32, state: SpeedpatchState },
    /// Initialization failed; the text says why.
    Failed(String),
}

/// A `Result<_, String>` with its error seen as characters.
pub open spec fn rv<T>(r: Result<T, String>) -> Result<T, Seq<char>> {
    match r {
        Ok(v) => Ok(v),
        Err(e) => Err(e@),
    }
}

/// `CallbackResult` seen as characters.
pub open spec fn callback_view(c: CallbackResult) -> Result<(u32, SpeedpatchState), Seq<char>> {
    match c {
        CallbackResult::Completed { callback_thread, state } => Ok((callback_thread, state)),
        CallbackResult::Failed(d) => Err(d@),
    }
}

/// An optional `CallbackResult` seen as characters.
pub open spec fn opt_callback_view(c: Option<CallbackResult>) -> Option<Result<(u32, SpeedpatchState), Seq<char>>> {
    match c {
        Some(r) => Some(callback_view(r)),
        None => None,
    }
}

/// The failure reported for a callback that published a failed initialization.
pub open spec fn callback_failure(pid: u32, callback_thread: u32, init_result: u32) -> Seq<char> {
    "SP_HookProc initialization failed for pid="@ + dec(pid as nat) + ", callback_thread="@
        + dec(callback_thread as nat) + ": "@ + failure_detail_spec(pid, init_result)
}

/// The terminal result of a handshake reading, if it has one.
pub open spec fn terminal_of(pid: u32, h: SpeedpatchHandshake) -> Option<Result<(u32, SpeedpatchState), Seq<char>>> {
    match handshake_verdict(h) {
        HandshakeVerdict::Pending => None,
        HandshakeVerdict::Complete { callback_thread, state } => Some(Ok((callback_thread, state))),
        HandshakeVerdict::Failed { callback_thread, init_result } => Some(Err(callback_failure(pid, callback_thread, init_result))),
        HandshakeVerdict::Invalid(d) => Some(Err(d)),
    }
}

/// The terminal result of a handshake reading, if it has one.
pub fn terminal_result(pid: u32, h: SpeedpatchHandshake) -> (r: Option<CallbackResult>)
    ensures
        opt_callback_view(r) == terminal_of(pid, h),
{
    match classify_handshake(h) {
        HandshakeProgress::Pending => None,
        HandshakeProgress::Complete { callback_thread, state } => Some(CallbackResult::Completed { callback_thread, state }),
        HandshakeProgress::Failed { callback_thread, init_result } => {
            let mut d = string_of("SP_HookProc initialization failed for pid=");
            push_dec(&mut d, pid as u64);
            push_str(&mut d, ", callback_thread=");
            push_dec(&mut d, callback_thread as u64);
            push_str(&mut d, ": ");
            let detail = initialization_failure_detail(pid, init_result);
            push_str(&mut d, detail.as_str());
            Some(CallbackResult::Failed(d))
        },
        HandshakeProgress::Invalid(d) => Some(CallbackResult::Failed(d)),
    }
}

/// Where a hook-based injection stands.
#[derive(Debug, PartialEq, Eq)]
pub enum HookOutcome {
    /// The callback initialized speedpatch.
    Complete { callback_thread: u32, state: SpeedpatchState },
    /// The callback is still running; a monitor has to follow it.
    Pending { callback_thread: u32, detail: String },
    /// The injection failed.
    Failed(String),
}

/// `HookOutcome` with its texts seen as characters.
pub enum OutcomeView {
    Complete { callback_thread: u32, state: SpeedpatchState },
    Pending { callback_thread: u32, detail: Seq<char> },
    Failed(Seq<char>),
}

impl View for HookOutcome {
    type V = OutcomeView;

    open spec fn view(&self) -> OutcomeView {
        match self {
            HookOutcome::Complete { callback_thread, state } => OutcomeView::Complete {
                callback_thread: *callback_thread,
                state: *state,
            },
            HookOutcome::Pending { callback_thread, detail } => OutcomeView::Pending {
                callback_thread: *callback_thread,
                detail: detail@,
            },
            HookOutcome::Failed(d) => OutcomeView::Failed(d@),
        }
    }
}

/// The outcome that a terminal callback result stands for.
pub open spec fn outcome_of(t: Result<(u32, SpeedpatchState), Seq<char>>) -> OutcomeView {
    match t {
        Ok((callback_thread, state)) => OutcomeView::Complete { callback_thread, state },
        Err(d) => OutcomeView::Failed(d),
    }
}

fn outcome_from(t: CallbackResult) -> (o: HookOutcome)
    ensures
        o@ == outcome_of(callback_view(t)),
{
    match t {
        CallbackResult::Completed { callback_thread, state } => HookOutcome::Complete { callback_thread, state },
        CallbackResult::Failed(d) => HookOutcome::Failed(d),
    }
}

/// A failure whose text names the DLL's own log, which has to be read first.
#[derive(Debug, Clone, Copy, PartialEq, Eq, Structural)]
pub enum LogFailure {
    /// The callback signaled completion, but no terminal handshake is readable.
    CompletedWithoutHandshake { callback_thread: u32 },
    /// No handshake at all was published while waiting.
    NoHandshake,
}

/// The next step of the wait for the hook callback.
#[derive(Debug, PartialEq, Eq)]
pub enum WaitStep {
    /// The wait is over.
    Finish(HookOutcome),
    /// The wait is over with a failure that names the DLL log: read the
    /// log's last install failure and build the failure with `log_failure`.
    ReadLog(LogFailure),
    /// Look for the speedpatch module in the target, then call `after_probe`.
    ProbeModule,
    /// Sleep one poll interval, then poll again.
    Sleep,
}

/// `WaitStep` with its texts seen as characters.
pub enum WaitStepView {
    Finish(OutcomeView),
    ReadLog(LogFailure),
    ProbeModule,
    Sleep,
}

impl View for WaitStep {
    type V = WaitStepView;

    open spec fn view(&self) -> WaitStepView {
        match self {
            WaitStep::Finish(o) => WaitStepView::Finish(o@),
            WaitStep::ReadLog(f) => WaitStepView::ReadLog(*f),
            WaitStep::ProbeModule => WaitStepView::ProbeModule,
            WaitStep::Sleep => WaitStepView::Sleep,
        }
    }
}

/// What the wait for the hook callback has seen so far.
#[derive(Debug, Clone, Copy, PartialEq, Eq, Structural)]
pub struct HookWait {
    /// Some handshake named the callback's thread.
    pub observed_handshake: bool,
    /// The thread named by the last handshake read.
    pub callback_thread: u32,
    /// The module probe has been made.
    pub probe_done: bool,
}

/// The failure when the target exits during the wait.
pub open spec fn exited_while_waiting(pid: u32) -> Seq<char> {
    "TARGET_EXITED: pid="@ + dec(pid as nat) + " exited while waiting for SP_HookProc"@
}

/// The pending detail when shutdown starts after the callback was entered.
pub open spec fn shutdown_waiting(pid: u32) -> Seq<char> {
    "bridge shutdown is waiting for SP_HookProc initialization in pid="@ + dec(pid as nat)
}

/// The failure when shutdown starts before the callback was entered.
pub open spec fn shutdown_interrupted(pid: u32, hooked: Seq<u32>) -> Seq<char> {
    "bridge shutdown interrupted SetWindowsHookExW injection before callback entry for pid="@ + dec(pid as nat)
        + ", hooked_threads="@ + u32_list(hooked)
}

/// The start of the failures that name the hooked and woken threads.
pub open spec fn installed_for(pid: u32, hooked: Seq<u32>, posted: Seq<u32>) -> Seq<char> {
    "SetWindowsHookExW installed for pid="@ + dec(pid as nat) + ", hooked_threads="@ + u32_list(hooked)
        + ", posted_threads="@ + u32_list(posted)
}

/// The failure when the DLL never showed up in the target.
pub open spec fn dll_never_loaded(pid: u32, hooked: Seq<u32>, posted: Seq<u32>, dll_name: Seq<char>, log_path: Seq<char>) -> Seq<char> {
    installed_for(pid, hooked, posted) + ", but "@ + dll_name + " was not loaded into the target within "@
        + dec(DLL_INJECTION_PROBE_GRACE_SECS as nat)
        + "s of waking it. The target either rejects the hook-DLL injection (anti-cheat protection) or never dispatches WH_GETMESSAGE callbacks, so SP_HookProc can never run. DLL log: "@
        + log_path
}

/// The pending detail when the wait ran out after the callback was entered.
pub open spec fn completion_still_pending(pid: u32, callback_thread: u32) -> Seq<char> {
    "SP_HookProc entered pid="@ + dec(pid as nat) + " on thread="@ + dec(callback_thread as nat)
        + ", but its kernel completion event is still pending after 15s"@
}

/// The failure when no handshake was published during the whole wait.
pub open spec fn no_handshake_failure(pid: u32, hooked: Seq<u32>, posted: Seq<u32>, native: Option<Seq<char>>, log_path: Seq<char>) -> Seq<char> {
    installed_for(pid, hooked, posted) + ", but SP_HookProc did not publish its handshake within 15s."@
        + native_detail_spec(native) + " DLL log: "@ + log_path
}

/// The handshake mapping is readable (a failed reading counts as present).
pub open spec fn handshake_present(r: Result<Option<SpeedpatchHandshake>, Seq<char>>) -> bool {
    !(r == Ok::<Option<SpeedpatchHandshake>, Seq<char>>(None))
}

/// The wait after reading a handshake (or none).
pub open spec fn wait_seen(w: HookWait, h: Option<SpeedpatchHandshake>) -> HookWait {
    match h {
        Some(h) => HookWait {
            observed_handshake: w.observed_handshake || h.hook_thread_id != 0,
            callback_thread: h.hook_thread_id,
            probe_done: w.probe_done,
        },
        None => w,
    }
}

/// One poll of the wait: the state after it and the step it asks for.
pub open spec fn poll_spec(
    w: HookWait,
    pid: u32,
    exited: Result<bool, Seq<char>>,
    handshake: Result<Option<SpeedpatchHandshake>, Seq<char>>,
    completion: Result<bool, Seq<char>>,
    handshake_again: Result<Option<SpeedpatchHandshake>, Seq<char>>,
    shutdown: bool,
    probe_due: bool,
    hooked: Seq<u32>,
) -> (HookWait, WaitStepView) {
    match exited {
        Err(e) => (w, WaitStepView::Finish(OutcomeView::Failed(e))),
        Ok(true) => (w, WaitStepView::Finish(OutcomeView::Failed(exited_while_waiting(pid)))),
        Ok(false) => match handshake {
            Err(e) => (w, WaitStepView::Finish(OutcomeView::Failed(e))),
            Ok(h) => {
                let w1 = wait_seen(w, h);
                let terminal = match h {
                    Some(h) => terminal_of(pid, h),
                    None => None,
                };
                let signaled = completion == Ok::<bool, Seq<char>>(true);
                if terminal is Some {
                    (w1, WaitStepView::Finish(outcome_of(terminal->0)))
                } else if signaled && !handshake_present(handshake_again) {
                    (w1, WaitStepView::ReadLog(LogFailure::CompletedWithoutHandshake { callback_thread: w1.callback_thread }))
                } else if shutdown {
                    if w1.observed_handshake {
                        (w1, WaitStepView::Finish(OutcomeView::Pending {
                            callback_thread: w1.callback_thread,
                            detail: shutdown_waiting(pid),
                        }))
                    } else {
                        (w1, WaitStepView::Finish(OutcomeView::Failed(shutdown_interrupted(pid, hooked))))
                    }
                } else if !w1.probe_done && !w1.observed_handshake && !signaled && probe_due {
                    (HookWait { probe_done: true, ..w1 }, WaitStepView::ProbeModule)
                } else {
                    (w1, WaitStepView::Sleep)
                }
            },
        },
    }
}

/// Whether a poll marks the injection as initializing: the handshake it read
/// shows a callback that has not finished yet.
pub open spec fn poll_marks_initializing(
    pid: u32,
    exited: Result<bool, Seq<char>>,
    handshake: Result<Option<SpeedpatchHandshake>, Seq<char>>,
) -> bool {
    &&& exited == Ok::<bool, Seq<char>>(false)
    &&& handshake matches Ok(Some(h)) && terminal_of(pid, h) is None
}

impl HookWait {
    /// The wait before its first poll.
    pub fn new() -> (w: Self)
        ensures
            w == (HookWait { observed_handshake: false, callback_thread: 0, probe_done: false }),
    {
        HookWait { observed_handshake: false, callback_thread: 0, probe_done: false }
    }

    /// One poll of the wait for the hook callback, from what the caller read in
    /// this order: whether the target exited, the handshake, whether the
    /// completion event is signaled, and the handshake again; then whether
    /// shutdown started and whether the module-probe grace has passed.
    /// A callback that is still initializing is recorded as such.
    pub fn poll(
        &mut self,
        registry: &mut InjectionRegistry,
        pid: u32,
        exited: Result<bool, String>,
        handshake: Result<Option<SpeedpatchHandshake>, String>,
        completion: Result<bool, String>,
        handshake_again: Result<Option<SpeedpatchHandshake>, String>,
        shutdown: bool,
        probe_due: bool,
        hooked: &[u32],
    ) -> (step: WaitStep)
        ensures
            (*final(self), step@) == poll_spec(*old(self), pid, rv(exited), rv(handshake), rv(completion),
                rv(handshake_again), shutdown, probe_due, hooked@),
            final(registry)@.stages == (if poll_marks_initializing(pid, rv(exited), rv(handshake)) {
                old(registry)@.stages.insert(pid, InjectionStage::Initializing)
            } else {
                old(registry)@.stages
            }),
            final(registry)@.targets == old(registry)@.targets,
            final(registry)@.failures == old(registry)@.failures,
    {
        match exited {
            Err(e) => return WaitStep::Finish(HookOutcome::Failed(e)),
            Ok(true) => {
                let mut e = string_of("TARGET_EXITED: pid=");
                push_dec(&mut e, pid as u64);
                push_str(&mut e, " exited while waiting for SP_HookProc");
                return WaitStep::Finish(HookOutcome::Failed(e));
            },
            Ok(false) => {},
        }
        let h = match handshake {
            Err(e) => return WaitStep::Finish(HookOutcome::Failed(e)),
            Ok(h) => h,
        };
        let mut terminal: Option<CallbackResult> = None;
        match h {
            Some(h) => {
                self.observed_handshake = self.observed_handshake || h.hook_thread_id != 0;
                self.callback_thread = h.hook_thread_id;
                terminal = terminal_result(pid, h);
                if terminal.is_none() {
                    registry.set_injection_stage(pid, InjectionStage::Initializing);
                }
            },
            None => {},
        }
        let signaled = match completion {
            Ok(b) => b,
            Err(_) => false,
        };
        let present = match handshake_again {
            Ok(Some(_)) => true,
            Ok(None) => false,
            Err(_) => true,
        };
        match terminal {
            Some(t) => return WaitStep::Finish(outcome_from(t)),
            None => {},
        }
        if signaled && !present {
            return WaitStep::ReadLog(LogFailure::CompletedWithoutHandshake { callback_thread: self.callback_thread });
        }
        if shutdown {
            if self.observed_handshake {
                let mut d = string_of("bridge shutdown is waiting for SP_HookProc initialization in pid=");
                push_dec(&mut d, pid as u64);
                return WaitStep::Finish(HookOutcome::Pending { callback_thread: self.callback_thread, detail: d });
            }
            let mut e = string_of("bridge shutdown interrupted SetWindowsHookExW injection before callback entry for pid=");
            push_dec(&mut e, pid as u64);
            push_str(&mut e, ", hooked_threads=");
            push_u32_list(&mut e, hooked);
            return WaitStep::Finish(HookOutcome::Failed(e));
        }
        if !self.probe_done && !self.observed_handshake && !signaled && probe_due {
            self.probe_done = true;
            return WaitStep::ProbeModule;
        }
        WaitStep::Sleep
    }
}

/// What the module probe of the wait decides: it goes on unless the DLL is
/// missing from a target that is still running.
pub open spec fn after_probe_spec(
    pid: u32,
    module: Result<Option<RemoteModule>, Seq<char>>,
    exited: Result<bool, Seq<char>>,
    dll_name: Seq<char>,
    hooked: Seq<u32>,
    posted: Seq<u32>,
    log_path: Seq<char>,
) -> WaitStepView {
    match module {
        Ok(None) => match exited {
            Err(e) => WaitStepView::Finish(OutcomeView::Failed(e)),
            Ok(false) => WaitStepView::Finish(OutcomeView::Failed(dll_never_loaded(pid, hooked, posted, dll_name, log_path))),
            Ok(true) => WaitStepView::Sleep,
        },
        _ => WaitStepView::Sleep,
    }
}

/// The end of the wait once all polls are used: what the caller read in this
/// order is whether the target exited, whether the completion event is
/// signaled, and the handshake.
pub open spec fn timed_out_spec(
    w: HookWait,
    pid: u32,
    exited: Result<bool, Seq<char>>,
    completion: Result<bool, Seq<char>>,
    handshake: Result<Option<SpeedpatchHandshake>, Seq<char>>,
) -> WaitStepView {
    match exited {
        Err(e) => WaitStepView::Finish(OutcomeView::Failed(e)),
        Ok(true) => WaitStepView::Finish(OutcomeView::Failed(exited_while_waiting(pid))),
        Ok(false) => match completion {
            Err(e) => WaitStepView::Finish(OutcomeView::Failed(e)),
            Ok(signaled) => if signaled && handshake is Err {
                WaitStepView::Finish(OutcomeView::Failed(handshake->Err_0))
            } else if signaled && handshake == Ok::<Option<SpeedpatchHandshake>, Seq<char>>(None) {
                WaitStepView::ReadLog(LogFailure::CompletedWithoutHandshake { callback_thread: w.callback_thread })
            } else if w.observed_handshake {
                WaitStepView::Finish(OutcomeView::Pending {
                    callback_thread: w.callback_thread,
                    detail: completion_still_pending(pid, w.callback_thread),
                })
            } else {
                WaitStepView::ReadLog(LogFailure::NoHandshake)
            },
        },
    }
}

/// The text of a failure that names the DLL log, given the log's last
/// install failure (if any).
pub open spec fn log_failure_spec(
    pid: u32,
    failure: LogFailure,
    native: Option<Seq<char>>,
    hooked: Seq<u32>,
    posted: Seq<u32>,
    log_path: Seq<char>,
) -> Seq<char> {
    match failure {
        LogFailure::CompletedWithoutHandshake { callback_thread } => "SP_HookProc signaled completion for pid="@
            + dec(pid as nat) + ", callback_thread="@ + dec(callback_thread as nat)
            + ", but the terminal handshake is unavailable."@ + native_detail_spec(native) + " DLL log: "@ + log_path,
        LogFailure::NoHandshake => no_handshake_failure(pid, hooked, posted, native, log_path),
    }
}

/// An optional string seen as characters.
pub open spec fn opt_text(s: Option<String>) -> Option<Seq<char>> {
    match s {
        Some(t) => Some(t@),
        None => None,
    }
}

fn push_installed_for(s: &mut String, pid: u32, hooked: &[u32], posted: &[u32])
    ensures
        final(s)@ == old(s)@ + installed_for(pid, hooked@, posted@),
{
    push_str(s, "SetWindowsHookExW installed for pid=");
    push_dec(s, pid as u64);
    push_str(s, ", hooked_threads=");
    push_u32_list(s, hooked);
    push_str(s, ", posted_threads=");
    push_u32_list(s, posted);
    proof {
        assert(s@ =~= old(s)@ + installed_for(pid, hooked@, posted@));
    }
}

impl HookWait {
    /// The wait after its module probe found `module` (and, read after it,
    /// whether the target exited).
    pub fn after_probe(
        &self,
        pid: u32,
        module: Result<Option<RemoteModule>, String>,
        exited: Result<bool, String>,
        dll_name: &str,
        hooked: &[u32],
        posted: &[u32],
        log_path: &str,
    ) -> (step: WaitStep)
        ensures
            step@ == after_probe_spec(pid, rv(module), rv(exited), dll_name@, hooked@, posted@, log_path@),
    {
        match module {
            Ok(None) => match exited {
                Err(e) => WaitStep::Finish(HookOutcome::Failed(e)),
                Ok(false) => {
                    let mut e = String::new();
                    push_installed_for(&mut e, pid, hooked, posted);
                    push_str(&mut e, ", but ");
                    push_str(&mut e, dll_name);
                    push_str(&mut e, " was not loaded into the target within ");
                    push_dec(&mut e, DLL_INJECTION_PROBE_GRACE_SECS);
                    push_str(&mut e, "s of waking it. The target either rejects the hook-DLL injection (anti-cheat protection) or never dispatches WH_GETMESSAGE callbacks, so SP_HookProc can never run. DLL log: ");
                    push_str(&mut e, log_path);
                    proof {
                        assert(e@ =~= dll_never_loaded(pid, hooked@, posted@, dll_name@, log_path@));
                    }
                    WaitStep::Finish(HookOutcome::Failed(e))
                },
                Ok(true) => WaitStep::Sleep,
            },
            _ => WaitStep::Sleep,
        }
    }

    /// The end of the wait once all polls are used.
    pub fn timed_out(
        &self,
        pid: u32,
        exited: Result<bool, String>,
        completion: Result<bool, String>,
        handshake: Result<Option<SpeedpatchHandshake>, String>,
    ) -> (step: WaitStep)
        ensures
            step@ == timed_out_spec(*self, pid, rv(exited), rv(completion), rv(handshake)),
            !(step is ProbeModule) && !(step is Sleep),
    {
        match exited {
            Err(e) => return WaitStep::Finish(HookOutcome::Failed(e)),
            Ok(true) => {
                let mut e = string_of("TARGET_EXITED: pid=");
                push_dec(&mut e, pid as u64);
                push_str(&mut e, " exited while waiting for SP_HookProc");
                return WaitStep::Finish(HookOutcome::Failed(e));
            },
            Ok(false) => {},
        }
        let signaled = match completion {
            Err(e) => return WaitStep::Finish(HookOutcome::Failed(e)),
            Ok(b) => b,
        };
        if signaled {
            match handshake {
                Err(e) => return WaitStep::Finish(HookOutcome::Failed(e)),
                Ok(None) => {
                    return WaitStep::ReadLog(LogFailure::CompletedWithoutHandshake { callback_thread: self.callback_thread });
                },
                Ok(Some(_)) => {},
            }
        }
        if self.observed_handshake {
            let mut d = string_of("SP_HookProc entered pid=");
            push_dec(&mut d, pid as u64);
            push_str(&mut d, " on thread=");
            push_dec(&mut d, self.callback_thread as u64);
            push_str(&mut d, ", but its kernel completion event is still pending after 15s");
            return WaitStep::Finish(HookOutcome::Pending { callback_thread: self.callback_thread, detail: d });
        }
        WaitStep::ReadLog(LogFailure::NoHandshake)
    }
}

/// The failure that a `ReadLog` step asked for, given the last install
/// failure found in the DLL log (if any) and the log's path.
pub fn log_failure(
    pid: u32,
    failure: LogFailure,
    native: Option<String>,
    hooked: &[u32],
    posted: &[u32],
    log_path: &str,
) -> (o: HookOutcome)
    ensures
        o@ == OutcomeView::Failed(log_failure_spec(pid, failure, opt_text(native), hooked@, posted@, log_path@)),
{
    match failure {
        LogFailure::CompletedWithoutHandshake { callback_thread } => {
            let d = completed_without_terminal_handshake_detail(pid, callback_thread, native, log_path);
            HookOutcome::Failed(d)
        },
        LogFailure::NoHandshake => {
            let mut e = String::new();
            push_installed_for(&mut e, pid, hooked, posted);
            push_str(&mut e, ", but SP_HookProc did not publish its handshake within 15s.");
            let ghost before = e@;
            match native {
                Some(l) => {
                    push_str(&mut e, " Native DLL error: ");
                    push_str(&mut e, l.as_str());
                },
                None => {
                    proof { assert(e@ =~= before + Seq::<char>::empty()); }
                },
            }
            push_str(&mut e, " DLL log: ");
            push_str(&mut e, log_path);
            proof {
                assert(e@ =~= no_handshake_failure(pid, hooked@, posted@, opt_text(native), log_path@));
            }
            HookOutcome::Failed(e)
        },
    }
}

/// `thread=<id>: <detail>`, one failed Win32 call for a thread.
pub fn thread_error(thread_id: u32, detail: &str) -> (e: String)
    ensures
        e@ == "thread="@ + dec(thread_id as nat) + ": "@ + detail@,
{
    let mut e = string_of("thread=");
    push_dec(&mut e, thread_id as u64);
    push_str(&mut e, ": ");
    push_str(&mut e, detail);
    e
}

/// The failure when no candidate thread could be hooked.
pub open spec fn install_failure(pid: u32, candidates: Seq<u32>, errors: Seq<Seq<char>>) -> Seq<char> {
    "SetWindowsHookExW(WH_GETMESSAGE, pid="@ + dec(pid as nat) + ") failed for all candidates "@
        + u32_list(candidates) + ": "@ + joined(errors, "; "@)
}

/// Whether the hook was installed on at least one candidate thread; if on
/// none, the failure lists the candidates and each thread's error.
pub fn hooks_installed(pid: u32, candidates: &[u32], hooked: &[u32], errors: &[String]) -> (r: Result<(), String>)
    ensures
        hooked@.len() > 0 ==> r is Ok,
        hooked@.len() == 0 ==> (r matches Err(e) && e@ == install_failure(pid, candidates@, strings_view(errors@))),
{
    if hooked.len() > 0 {
        return Ok(());
    }
    let mut e = string_of("SetWindowsHookExW(WH_GETMESSAGE, pid=");
    push_dec(&mut e, pid as u64);
    push_str(&mut e, ") failed for all candidates ");
    push_u32_list(&mut e, candidates);
    push_str(&mut e, ": ");
    push_joined(&mut e, errors, "; ");
    proof {
        assert(e@ =~= install_failure(pid, candidates@, strings_view(errors@)));
    }
    Err(e)
}

/// The failure when no hooked thread could be woken.
pub open spec fn wake_failure(pid: u32, hooked: Seq<u32>, errors: Seq<Seq<char>>) -> Seq<char> {
    "SetWindowsHookExW installed for pid="@ + dec(pid as nat) + ", but PostThreadMessageW(WM_NULL) failed for all hooked threads "@
        + u32_list(hooked) + ": "@ + joined(errors, "; "@)
}

/// Whether at least one hooked thread was woken; if none, the wait is
/// skipped and this failure stands for its result.
pub fn hooks_woken(pid: u32, hooked: &[u32], posted: &[u32], errors: &[String]) -> (r: Result<(), String>)
    ensures
        posted@.len() > 0 ==> r is Ok,
        posted@.len() == 0 ==> (r matches Err(e) && e@ == wake_failure(pid, hooked@, strings_view(errors@))),
{
    if posted.len() > 0 {
        return Ok(());
    }
    let mut e = string_of("SetWindowsHookExW installed for pid=");
    push_dec(&mut e, pid as u64);
    push_str(&mut e, ", but PostThreadMessageW(WM_NULL) failed for all hooked threads ");
    push_u32_list(&mut e, hooked);
    push_str(&mut e, ": ");
    push_joined(&mut e, errors, "; ");
    proof {
        assert(e@ =~= wake_failure(pid, hooked@, strings_view(errors@)));
    }
    Err(e)
}

/// The next step of settling a hook injection after its wait.
#[derive(Debug, PartialEq, Eq)]
pub enum SettleStep {
    /// Settled. With `keep_hooks` the installed hooks stay in place and go to
    /// the monitor that follows the pending injection.
    Done { outcome: HookOutcome, keep_hooks: bool },
    /// Remove the installed hooks, then check whether the target exited and
    /// call `settle_after_release`.
    ReleaseHooks,
    /// Check whether the target exited and read the handshake, then call
    /// `settle_after_recheck`.
    Recheck,
    /// Look for the speedpatch module, check whether the target exited, then
    /// call `settle_after_probe`.
    ProbeModule,
}

/// `SettleStep` with its texts seen as characters.
pub enum SettleView {
    Done { outcome: OutcomeView, keep_hooks: bool },
    ReleaseHooks,
    Recheck,
    ProbeModule,
}

impl View for SettleStep {
    type V = SettleView;

    open spec fn view(&self) -> SettleView {
        match self {
            SettleStep::Done { outcome, keep_hooks } => SettleView::Done { outcome: outcome@, keep_hooks: *keep_hooks },
            SettleStep::ReleaseHooks => SettleView::ReleaseHooks,
            SettleStep::Recheck => SettleView::Recheck,
            SettleStep::ProbeModule => SettleView::ProbeModule,
        }
    }
}

/// The callback thread that an outcome names (none for a failure).
pub open spec fn outcome_thread(o: OutcomeView) -> u32 {
    match o {
        OutcomeView::Complete { callback_thread, .. } => callback_thread,
        OutcomeView::Pending { callback_thread, .. } => callback_thread,
        OutcomeView::Failed(_) => 0,
    }
}

/// Whether the hook callback is known to have returned after the wait.
pub open spec fn callback_returned(
    wait: OutcomeView,
    handshake: Result<Option<SpeedpatchHandshake>, Seq<char>>,
    completion: Result<bool, Seq<char>>,
    handshake_again: Result<Option<SpeedpatchHandshake>, Seq<char>>,
) -> bool {
    ||| wait is Complete
    ||| (handshake matches Ok(Some(h)) && h.callback_completed)
    ||| (wait is Failed && completion == Ok::<bool, Seq<char>>(true)
        && handshake_again == Ok::<Option<SpeedpatchHandshake>, Seq<char>>(None))
}

/// The detail of an injection left pending because its callback has not returned.
pub open spec fn unreturned_detail(wait: OutcomeView) -> Seq<char> {
    match wait {
        OutcomeView::Pending { detail, .. } => detail,
        OutcomeView::Complete { .. } => "SP_HookProc completed without a completion signal"@,
        OutcomeView::Failed(d) => d,
    }
}

/// Settling after the wait: a pending wait keeps its hooks; otherwise the
/// hooks are released once the callback is known to have returned (the
/// handshake, the completion event and the handshake again were read in this
/// order), and kept for the monitor while it may still run.
pub open spec fn settle_after_wait_spec(
    wait: OutcomeView,
    handshake: Result<Option<SpeedpatchHandshake>, Seq<char>>,
    completion: Result<bool, Seq<char>>,
    handshake_again: Result<Option<SpeedpatchHandshake>, Seq<char>>,
) -> SettleView {
    if wait is Pending {
        SettleView::Done { outcome: wait, keep_hooks: true }
    } else if callback_returned(wait, handshake, completion, handshake_again) {
        SettleView::ReleaseHooks
    } else {
        SettleView::Done {
            outcome: OutcomeView::Pending { callback_thread: outcome_thread(wait), detail: unreturned_detail(wait) },
            keep_hooks: true,
        }
    }
}

fn outcome_copy(o: &HookOutcome) -> (r: HookOutcome)
    ensures
        r@ == o@,
{
    match o {
        HookOutcome::Complete { callback_thread, state } => HookOutcome::Complete { callback_thread: *callback_thread, state: *state },
        HookOutcome::Pending { callback_thread, detail } => HookOutcome::Pending { callback_thread: *callback_thread, detail: detail.clone() },
        HookOutcome::Failed(d) => HookOutcome::Failed(d.clone()),
    }
}

fn thread_of(o: &HookOutcome) -> (t: u32)
    ensures
        t == outcome_thread(o@),
{
    match o {
        HookOutcome::Complete { callback_thread, .. } => *callback_thread,
        HookOutcome::Pending { callback_thread, .. } => *callback_thread,
        HookOutcome::Failed(_) => 0,
    }
}

/// The first step of settling a hook injection, from the wait's outcome.
pub fn settle_after_wait(
    wait: &HookOutcome,
    handshake: Result<Option<SpeedpatchHandshake>, String>,
    completion: Result<bool, String>,
    handshake_again: Result<Option<SpeedpatchHandshake>, String>,
) -> (step: SettleStep)
    ensures
        step@ == settle_after_wait_spec(wait@, rv(handshake), rv(completion), rv(handshake_again)),
{
    let failed = match wait {
        HookOutcome::Pending { .. } => return SettleStep::Done { outcome: outcome_copy(wait), keep_hooks: true },
        HookOutcome::Complete { .. } => false,
        HookOutcome::Failed(_) => true,
    };
    let completed_marker = match handshake {
        Ok(Some(h)) => h.callback_completed,
        _ => false,
    };
    let signaled = match completion {
        Ok(b) => b,
        Err(_) => false,
    };
    let absent = match handshake_again {
        Ok(None) => true,
        _ => false,
    };
    if !failed || completed_marker || (signaled && absent) {
        return SettleStep::ReleaseHooks;
    }
    let detail = match wait {
        HookOutcome::Pending { detail, .. } => detail.clone(),
        HookOutcome::Complete { .. } => string_of("SP_HookProc completed without a completion signal"),
        HookOutcome::Failed(d) => d.clone(),
    };
    SettleStep::Done { outcome: HookOutcome::Pending { callback_thread: thread_of(wait), detail }, keep_hooks: true }
}

/// The failure when the target exits while the injection is settled.
pub open spec fn exited_after(pid: u32, moment: Seq<char>) -> Seq<char> {
    "TARGET_EXITED: pid="@ + dec(pid as nat) + " exited after "@ + moment
}

/// What the wait said, as the first part of a failed hook cleanup's detail.
pub open spec fn cleanup_wait_detail(wait: OutcomeView) -> Seq<char> {
    match wait {
        OutcomeView::Complete { .. } => "SP_HookProc completed before hook cleanup failed"@,
        OutcomeView::Pending { detail, .. } => detail,
        OutcomeView::Failed(d) => d,
    }
}

/// Settling after the hooks were removed (`cleanup`) and the target was
/// checked (`exited`): hooks that could not all be removed keep the injection
/// pending; a failed wait is checked again.
pub open spec fn settle_after_release_spec(
    pid: u32,
    wait: OutcomeView,
    cleanup: Result<(), Seq<char>>,
    exited: Result<bool, Seq<char>>,
) -> SettleView {
    match cleanup {
        Err(ce) => SettleView::Done {
            outcome: OutcomeView::Pending {
                callback_thread: outcome_thread(wait),
                detail: cleanup_wait_detail(wait) + "; hook cleanup remains pending: "@ + ce,
            },
            keep_hooks: true,
        },
        Ok(()) => match exited {
            Err(e) => SettleView::Done { outcome: OutcomeView::Failed(e), keep_hooks: false },
            Ok(true) => SettleView::Done { outcome: OutcomeView::Failed(exited_after(pid, "hook cleanup"@)), keep_hooks: false },
            Ok(false) => if wait is Failed { SettleView::Recheck } else { SettleView::Done { outcome: wait, keep_hooks: false } },
        },
    }
}

fn exited_after_text(pid: u32, moment: &str) -> (e: String)
    ensures
        e@ == exited_after(pid, moment@),
{
    let mut e = string_of("TARGET_EXITED: pid=");
    push_dec(&mut e, pid as u64);
    push_str(&mut e, " exited after ");
    push_str(&mut e, moment);
    e
}

/// The second step of settling, after the hooks were removed.
pub fn settle_after_release(
    pid: u32,
    wait: &HookOutcome,
    cleanup: Result<(), String>,
    exited: Result<bool, String>,
) -> (step: SettleStep)
    ensures
        step@ == settle_after_release_spec(pid, wait@, rv(cleanup), rv(exited)),
{
    match cleanup {
        Err(ce) => {
            let mut d = match wait {
                HookOutcome::Complete { .. } => string_of("SP_HookProc completed before hook cleanup failed"),
                HookOutcome::Pending { detail, .. } => detail.clone(),
                HookOutcome::Failed(d) => d.clone(),
            };
            push_str(&mut d, "; hook cleanup remains pending: ");
            push_str(&mut d, ce.as_str());
            SettleStep::Done { outcome: HookOutcome::Pending { callback_thread: thread_of(wait), detail: d }, keep_hooks: true }
        },
        Ok(()) => match exited {
            Err(e) => SettleStep::Done { outcome: HookOutcome::Failed(e), keep_hooks: false },
            Ok(true) => SettleStep::Done { outcome: HookOutcome::Failed(exited_after_text(pid, "hook cleanup")), keep_hooks: false },
            Ok(false) => match wait {
                HookOutcome::Failed(_) => SettleStep::Recheck,
                _ => SettleStep::Done { outcome: outcome_copy(wait), keep_hooks: false },
            },
        },
    }
}

/// Settling a failed wait after the target was checked and the handshake
/// read again: a terminal handshake decides; a running callback keeps the
/// injection pending; without a handshake the module decides.
pub open spec fn settle_after_recheck_spec(
    pid: u32,
    error: Seq<char>,
    exited: Result<bool, Seq<char>>,
    handshake: Result<Option<SpeedpatchHandshake>, Seq<char>>,
) -> SettleView {
    match exited {
        Err(e) => SettleView::Done { outcome: OutcomeView::Failed(e), keep_hooks: false },
        Ok(true) => SettleView::Done { outcome: OutcomeView::Failed(exited_after(pid, "hook callback"@)), keep_hooks: false },
        Ok(false) => match handshake {
            Err(e) => SettleView::Done { outcome: OutcomeView::Failed(e), keep_hooks: false },
            Ok(Some(h)) => match terminal_of(pid, h) {
                Some(t) => SettleView::Done { outcome: outcome_of(t), keep_hooks: false },
                None => SettleView::Done {
                    outcome: OutcomeView::Pending { callback_thread: h.hook_thread_id, detail: error },
                    keep_hooks: false,
                },
            },
            Ok(None) => SettleView::ProbeModule,
        },
    }
}

/// The third step of settling a failed wait (`error` is its failure).
pub fn settle_after_recheck(
    pid: u32,
    error: &str,
    exited: Result<bool, String>,
    handshake: Result<Option<SpeedpatchHandshake>, String>,
) -> (step: SettleStep)
    ensures
        step@ == settle_after_recheck_spec(pid, error@, rv(exited), rv(handshake)),
{
    match exited {
        Err(e) => return SettleStep::Done { outcome: HookOutcome::Failed(e), keep_hooks: false },
        Ok(true) => return SettleStep::Done { outcome: HookOutcome::Failed(exited_after_text(pid, "hook callback")), keep_hooks: false },
        Ok(false) => {},
    }
    match handshake {
        Err(e) => SettleStep::Done { outcome: HookOutcome::Failed(e), keep_hooks: false },
        Ok(Some(h)) => match terminal_result(pid, h) {
            Some(t) => SettleStep::Done { outcome: outcome_from(t), keep_hooks: false },
            None => SettleStep::Done {
                outcome: HookOutcome::Pending { callback_thread: h.hook_thread_id, detail: string_of(error) },
                keep_hooks: false,
            },
        },
        Ok(None) => SettleStep::ProbeModule,
    }
}

/// The pending detail when the DLL is still loaded after a failed wait.
pub open spec fn still_loaded_detail(error: Seq<char>, dll_name: Seq<char>, base: usize) -> Seq<char> {
    error + "; "@ + dll_name + " remains loaded at 0x"@ + hex(base as nat)
        + ", so the kernel completion event is still being monitored"@
}

/// The last step of settling a failed wait, from the module probe and, read
/// after it, whether the target exited: a DLL still loaded keeps the
/// injection pending (without hooks); otherwise the wait's failure stands.
pub open spec fn settle_after_probe_spec(
    pid: u32,
    error: Seq<char>,
    dll_name: Seq<char>,
    module: Result<Option<RemoteModule>, Seq<char>>,
    exited: Result<bool, Seq<char>>,
) -> OutcomeView {
    match module {
        Err(e) => OutcomeView::Failed(e),
        Ok(Some(m)) => OutcomeView::Pending { callback_thread: 0, detail: still_loaded_detail(error, dll_name, m.base) },
        Ok(None) => match exited {
            Err(e) => OutcomeView::Failed(e),
            Ok(true) => OutcomeView::Failed(exited_after(pid, "hook cleanup"@)),
            Ok(false) => OutcomeView::Failed(error),
        },
    }
}

/// The last step of settling a failed wait; the hooks are gone either way.
pub fn settle_after_probe(
    pid: u32,
    error: &str,
    dll_name: &str,
    module: Result<Option<RemoteModule>, String>,
    exited: Result<bool, String>,
) -> (o: HookOutcome)
    ensures
        o@ == settle_after_probe_spec(pid, error@, dll_name@, rv(module), rv(exited)),
{
    match module {
        Err(e) => HookOutcome::Failed(e),
        Ok(Some(m)) => {
            let mut d = string_of(error);
            push_str(&mut d, "; ");
            push_str(&mut d, dll_name);
            push_str(&mut d, " remains loaded at 0x");
            push_hex(&mut d, m.base as u64);
            push_str(&mut d, ", so the kernel completion event is still being monitored");
            HookOutcome::Pending { callback_thread: 0, detail: d }
        },
        Ok(None) => match exited {
            Err(e) => HookOutcome::Failed(e),
            Ok(true) => HookOutcome::Failed(exited_after_text(pid, "hook cleanup")),
            Ok(false) => HookOutcome::Failed(string_of(error)),
        },
    }
}

/// What a pending-injection monitor asks the caller to do next.
#[derive(Debug, Clone, Copy, PartialEq, Eq, Structural)]
pub enum MonitorAction {
    /// Read whether the target exited, the handshake, whether the completion
    /// event is signaled and the handshake again; then call `observe`.
    Observe,
    /// Try to remove the installed hooks (they stay installed when that
    /// fails); then call `hooks_released`.
    ReleaseHooks,
    /// Read the handshake; then call `handshake_read`.
    ReadHandshake,
    /// Read the last install failure of the DLL log; then call `log_read`.
    ReadLog,
    /// Look for the speedpatch module, then check whether the target exited;
    /// then call `module_probed`.
    ProbeModule,
    /// Read whether shutdown started and whether the monitor's deadline has
    /// passed; then call `deadline_checked`.
    CheckDeadline,
    /// Remove the installed hooks and let them go whatever the result; then
    /// call `hooks_dropped`.
    DropHooks,
    /// Check whether the target exited and whether shutdown started; then
    /// call `publish`.
    CheckBeforePublish,
    /// Read whether shutdown started; then call `shutdown_checked`.
    CheckShutdown,
    /// Write the disable to the target (after starting the shutdown grace
    /// clock when `start_grace`), read whether the grace has passed, then
    /// call `grace_checked`.
    DisableForShutdown { start_grace: bool },
    /// Sleep one poll interval, then `Observe`.
    Sleep,
    /// The monitor is done.
    Finished(MonitorEnd),
}

/// How a pending-injection monitor ended.
#[derive(Debug, Clone, Copy, PartialEq, Eq, Structural)]
pub enum MonitorEnd {
    /// The target exited; hooks still installed are let go without unhooking.
    TargetExited,
    /// The terminal result was recorded; the target must be disabled at once
    /// when `disable_target` (shutdown has started).
    Published { disable_target: bool },
    /// The shutdown grace ran out; hooks still installed are removed.
    Abandoned,
}

/// Follows an injection whose hook callback had not finished when `INJECT`
/// answered, until its result can be recorded or the target is gone.
pub struct PendingMonitor {
    pid: u32,
    dll_name: String,
    pending_detail: String,
    hooks_held: bool,
    terminal: Option<CallbackResult>,
    terminal_without_completion: bool,
    callback_finished: bool,
    grace_started: bool,
    log_thread: u32,
}

/// What a monitor knows.
pub struct MonitorView {
    pub pid: u32,
    pub dll_name: Seq<char>,
    /// The answer `INJECT` gave; it becomes the failure when the DLL turns out
    /// not to be loaded.
    pub pending_detail: Seq<char>,
    /// The hooks of the injection are still installed.
    pub hooks_held: bool,
    /// The terminal result waiting to be recorded.
    pub terminal: Option<Result<(u32, SpeedpatchState), Seq<char>>>,
    /// The terminal result was decided without the callback having returned.
    pub terminal_without_completion: bool,
    /// The last observation showed that the callback has returned.
    pub callback_finished: bool,
    /// The shutdown grace clock is running.
    pub grace_started: bool,
    /// The callback thread named by the failure that waits for the log.
    pub log_thread: u32,
}

impl View for PendingMonitor {
    type V = MonitorView;

    closed spec fn view(&self) -> MonitorView {
        MonitorView {
            pid: self.pid,
            dll_name: self.dll_name@,
            pending_detail: self.pending_detail@,
            hooks_held: self.hooks_held,
            terminal: opt_callback_view(self.terminal),
            terminal_without_completion: self.terminal_without_completion,
            callback_finished: self.callback_finished,
            grace_started: self.grace_started,
            log_thread: self.log_thread,
        }
    }
}

/// After observing (and maybe releasing hooks): look for a terminal handshake
/// unless a terminal result is already known.
pub open spec fn after_observe(m: MonitorView) -> MonitorAction {
    if m.terminal is None { MonitorAction::ReadHandshake } else { MonitorAction::CheckDeadline }
}

/// After the deadline check: record the result once the hooks are gone and
/// the callback returned (or the result does not depend on it); else look at
/// shutdown.
pub open spec fn publish_or_shutdown(m: MonitorView) -> MonitorAction {
    if !m.hooks_held && (m.callback_finished || m.terminal_without_completion) && m.terminal is Some {
        MonitorAction::CheckBeforePublish
    } else {
        MonitorAction::CheckShutdown
    }
}

/// The failure recorded when the monitor's deadline passes without any result.
pub open spec fn deadline_failure(pid: u32, dll_name: Seq<char>, pending_detail: Seq<char>) -> Seq<char> {
    "injection did not complete within "@ + dec(PENDING_INJECTION_DEADLINE_SECS as nat) + "s for pid="@ + dec(pid as nat)
        + ": SP_HookProc never published a handshake and "@ + dll_name
        + " was never observed in the target, so the hook-DLL injection was likely rejected (anti-cheat protection) or no target thread dispatches WH_GETMESSAGE messages. Restart the target before retrying. Last detail: "@
        + pending_detail
}

/// The registry forgets the target: no stage, no failure, not kept.
pub open spec fn forgotten(old_r: crate::bridge::registry::RegistryView, new_r: crate::bridge::registry::RegistryView, pid: u32) -> bool {
    &&& new_r.stages == old_r.stages.remove(pid)
    &&& new_r.failures == old_r.failures.remove(pid)
    &&& new_r.targets == old_r.targets.remove(pid)
}

fn forget(registry: &mut InjectionRegistry, pid: u32)
    ensures
        forgotten(old(registry)@, final(registry)@, pid),
{
    registry.clear_injection_stage(pid);
    registry.clear_injection_failure(pid);
    registry.untrack_target(pid);
}

fn copy_callback(c: &Option<CallbackResult>) -> (r: Option<CallbackResult>)
    ensures
        opt_callback_view(r) == opt_callback_view(*c),
{
    match c {
        Some(CallbackResult::Completed { callback_thread, state }) => Some(CallbackResult::Completed { callback_thread: *callback_thread, state: *state }),
        Some(CallbackResult::Failed(d)) => Some(CallbackResult::Failed(d.clone())),
        None => None,
    }
}

impl PendingMonitor {
    /// A monitor for the pending injection of `pid`, which answered
    /// `pending_detail`; `hooks_held` when its hooks are still installed.
    pub fn new(pid: u32, dll_name: String, pending_detail: String, hooks_held: bool) -> (m: Self)
        ensures
            m@ == (MonitorView {
                pid,
                dll_name: dll_name@,
                pending_detail: pending_detail@,
                hooks_held,
                terminal: None,
                terminal_without_completion: false,
                callback_finished: false,
                grace_started: false,
                log_thread: 0,
            }),
    {
        PendingMonitor {
            pid,
            dll_name,
            pending_detail,
            hooks_held,
            terminal: None,
            terminal_without_completion: false,
            callback_finished: false,
            grace_started: false,
            log_thread: 0,
        }
    }

    /// Whether the hooks are still installed.
    pub fn holds_hooks(&self) -> (b: bool)
        ensures
            b == self@.hooks_held,
    {
        self.hooks_held
    }

    /// The first look of each poll. A target that exited ends the monitor
    /// and is forgotten. The callback has returned when the handshake shows
    /// its completion marker, or when the completion event is signaled while
    /// no handshake exists; then the hooks are released.
    pub fn observe(
        &mut self,
        registry: &mut InjectionRegistry,
        exited: Result<bool, String>,
        handshake: Result<Option<SpeedpatchHandshake>, String>,
        completion: Result<bool, String>,
        handshake_again: Result<Option<SpeedpatchHandshake>, String>,
    ) -> (action: MonitorAction)
        ensures
            rv(exited) == Ok::<bool, Seq<char>>(true) ==> action == MonitorAction::Finished(MonitorEnd::TargetExited)
                && final(self)@ == old(self)@ && forgotten(old(registry)@, final(registry)@, old(self)@.pid),
            action is Finished ==> !final(registry)@.stages.contains_key(old(self)@.pid),
            rv(exited) != Ok::<bool, Seq<char>>(true) ==> {
                let finished = (rv(handshake) matches Ok(Some(h)) && h.callback_completed)
                    || (rv(completion) == Ok::<bool, Seq<char>>(true)
                        && rv(handshake_again) == Ok::<Option<SpeedpatchHandshake>, Seq<char>>(None));
                &&& final(self)@ == MonitorView { callback_finished: finished, ..old(self)@ }
                &&& action == (if finished && old(self)@.hooks_held { MonitorAction::ReleaseHooks } else { after_observe(final(self)@) })
                &&& final(registry)@ == old(registry)@
            },
    {
        match exited {
            Ok(true) => {
                forget(registry, self.pid);
                return MonitorAction::Finished(MonitorEnd::TargetExited);
            },
            _ => {},
        }
        let completed_marker = match handshake {
            Ok(Some(h)) => h.callback_completed,
            _ => false,
        };
        let signaled = match completion {
            Ok(b) => b,
            Err(_) => false,
        };
        let absent = match handshake_again {
            Ok(None) => true,
            _ => false,
        };
        self.callback_finished = completed_marker || (signaled && absent);
        if self.callback_finished && self.hooks_held {
            return MonitorAction::ReleaseHooks;
        }
        if self.terminal.is_none() { MonitorAction::ReadHandshake } else { MonitorAction::CheckDeadline }
    }

    /// After trying to remove the hooks: they are gone when that succeeded.
    pub fn hooks_released(&mut self, cleanup: Result<(), String>) -> (action: MonitorAction)
        ensures
            final(self)@ == (MonitorView { hooks_held: old(self)@.hooks_held && cleanup is Err, ..old(self)@ }),
            action == after_observe(final(self)@),
    {
        if cleanup.is_ok() {
            self.hooks_held = false;
        }
        if self.terminal.is_none() { MonitorAction::ReadHandshake } else { MonitorAction::CheckDeadline }
    }

    /// The handshake read while no terminal result is known: a terminal
    /// handshake gives it; a running callback is recorded as initializing, and
    /// if the callback has returned anyway its failure waits for the DLL log;
    /// with no handshake and no hooks left, the same failure, or a module probe
    /// while the callback may still come.
    pub fn handshake_read(
        &mut self,
        registry: &mut InjectionRegistry,
        handshake: Result<Option<SpeedpatchHandshake>, String>,
    ) -> (action: MonitorAction)
        ensures
            old(self)@.terminal is Some ==> final(self)@ == old(self)@ && final(registry)@ == old(registry)@
                && action == MonitorAction::CheckDeadline,
            old(self)@.terminal is None ==> match rv(handshake) {
                Ok(Some(h)) => match terminal_of(old(self)@.pid, h) {
                    Some(t) => final(self)@ == MonitorView { terminal: Some(t), ..old(self)@ }
                        && final(registry)@ == old(registry)@ && action == MonitorAction::CheckDeadline,
                    None => final(registry)@.stages == old(registry)@.stages.insert(old(self)@.pid, InjectionStage::Initializing)
                        && final(registry)@.targets == old(registry)@.targets
                        && final(registry)@.failures == old(registry)@.failures
                        && if old(self)@.callback_finished {
                            final(self)@ == MonitorView { log_thread: h.hook_thread_id, ..old(self)@ } && action == MonitorAction::ReadLog
                        } else {
                            final(self)@ == old(self)@ && action == MonitorAction::CheckDeadline
                        },
                },
                Ok(None) => final(registry)@ == old(registry)@ && if old(self)@.hooks_held {
                    final(self)@ == old(self)@ && action == MonitorAction::CheckDeadline
                } else if old(self)@.callback_finished {
                    final(self)@ == MonitorView { log_thread: 0, ..old(self)@ } && action == MonitorAction::ReadLog
                } else {
                    final(self)@ == old(self)@ && action == MonitorAction::ProbeModule
                },
                Err(_) => final(self)@ == old(self)@ && final(registry)@ == old(registry)@ && action == MonitorAction::CheckDeadline,
            },
    {
        if self.terminal.is_some() {
            return MonitorAction::CheckDeadline;
        }
        match handshake {
            Ok(Some(h)) => match terminal_result(self.pid, h) {
                Some(t) => {
                    self.terminal = Some(t);
                    MonitorAction::CheckDeadline
                },
                None => {
                    registry.set_injection_stage(self.pid, InjectionStage::Initializing);
                    if self.callback_finished {
                        self.log_thread = h.hook_thread_id;
                        MonitorAction::ReadLog
                    } else {
                        MonitorAction::CheckDeadline
                    }
                },
            },
            Ok(None) => {
                if self.hooks_held {
                    MonitorAction::CheckDeadline
                } else if self.callback_finished {
                    self.log_thread = 0;
                    MonitorAction::ReadLog
                } else {
                    MonitorAction::ProbeModule
                }
            },
            Err(_) => MonitorAction::CheckDeadline,
        }
    }

    /// The DLL log was read: the callback's failure names its last install
    /// failure (if any) and the log's path.
    pub fn log_read(&mut self, native: Option<String>, log_path: &str) -> (action: MonitorAction)
        ensures
            action == MonitorAction::CheckDeadline,
            old(self)@.terminal is Some ==> final(self)@ == old(self)@,
            old(self)@.terminal is None ==> final(self)@ == (MonitorView {
                terminal: Some(Err(log_failure_spec(old(self)@.pid,
                    LogFailure::CompletedWithoutHandshake { callback_thread: old(self)@.log_thread },
                    opt_text(native), seq![], seq![], log_path@))),
                ..old(self)@
            }),
    {
        if self.terminal.is_none() {
            let d = completed_without_terminal_handshake_detail(self.pid, self.log_thread, native, log_path);
            self.terminal = Some(CallbackResult::Failed(d));
        }
        MonitorAction::CheckDeadline
    }

    /// The module probe, made when no handshake and no hooks are left and the
    /// callback has not returned: a missing DLL in a running target means the
    /// injection cannot complete, and its answer becomes the failure; a target
    /// that exited ends the monitor.
    pub fn module_probed(
        &mut self,
        registry: &mut InjectionRegistry,
        module: Result<Option<RemoteModule>, String>,
        exited: Result<bool, String>,
    ) -> (action: MonitorAction)
        ensures
            (rv(module) == Ok::<Option<RemoteModule>, Seq<char>>(None) && rv(exited) == Ok::<bool, Seq<char>>(true))
                ==> action == MonitorAction::Finished(MonitorEnd::TargetExited) && final(self)@ == old(self)@
                    && forgotten(old(registry)@, final(registry)@, old(self)@.pid),
            (rv(module) == Ok::<Option<RemoteModule>, Seq<char>>(None) && rv(exited) == Ok::<bool, Seq<char>>(false))
                ==> action == MonitorAction::CheckDeadline && final(registry)@ == old(registry)@
                    && final(self)@ == (if old(self)@.terminal is None {
                        MonitorView {
                            terminal: Some(Err(old(self)@.pending_detail)),
                            terminal_without_completion: true,
                            ..old(self)@
                        }
                    } else {
                        old(self)@
                    }),
            !(rv(module) == Ok::<Option<RemoteModule>, Seq<char>>(None) && rv(exited) is Ok)
                ==> action == MonitorAction::CheckDeadline && final(self)@ == old(self)@ && final(registry)@ == old(registry)@,
            action is Finished ==> !final(registry)@.stages.contains_key(old(self)@.pid),
    {
        match module {
            Ok(None) => match exited {
                Ok(true) => {
                    forget(registry, self.pid);
                    MonitorAction::Finished(MonitorEnd::TargetExited)
                },
                Ok(false) => {
                    if self.terminal.is_none() {
                        self.terminal = Some(CallbackResult::Failed(self.pending_detail.clone()));
                        self.terminal_without_completion = true;
                    }
                    MonitorAction::CheckDeadline
                },
                Err(_) => MonitorAction::CheckDeadline,
            },
            _ => MonitorAction::CheckDeadline,
        }
    }

    /// The deadline check, skipped once shutdown started: past the deadline a
    /// missing result becomes the deadline failure and the hooks are let go.
    pub fn deadline_checked(&mut self, shutdown: bool, deadline_passed: bool) -> (action: MonitorAction)
        ensures
            (shutdown || !deadline_passed) ==> final(self)@ == old(self)@ && action == publish_or_shutdown(old(self)@),
            (!shutdown && deadline_passed) ==> {
                &&& final(self)@ == (if old(self)@.terminal is None {
                    MonitorView {
                        terminal: Some(Err(deadline_failure(old(self)@.pid, old(self)@.dll_name, old(self)@.pending_detail))),
                        terminal_without_completion: true,
                        ..old(self)@
                    }
                } else {
                    old(self)@
                })
                &&& action == (if old(self)@.hooks_held { MonitorAction::DropHooks } else { publish_or_shutdown(final(self)@) })
                &&& final(self)@.terminal is Some
                &&& old(self)@.terminal is None ==> final(self)@.terminal_without_completion
                    && (action == MonitorAction::DropHooks || action == MonitorAction::CheckBeforePublish)
            },
    {
        if !shutdown && deadline_passed {
            if self.terminal.is_none() {
                let mut d = string_of("injection did not complete within ");
                push_dec(&mut d, PENDING_INJECTION_DEADLINE_SECS);
                push_str(&mut d, "s for pid=");
                push_dec(&mut d, self.pid as u64);
                push_str(&mut d, ": SP_HookProc never published a handshake and ");
                push_str(&mut d, self.dll_name.as_str());
                push_str(&mut d, " was never observed in the target, so the hook-DLL injection was likely rejected (anti-cheat protection) or no target thread dispatches WH_GETMESSAGE messages. Restart the target before retrying. Last detail: ");
                push_str(&mut d, self.pending_detail.as_str());
                proof {
                    assert(d@ =~= deadline_failure(self.pid, self.dll_name@, self.pending_detail@));
                }
                self.terminal = Some(CallbackResult::Failed(d));
                self.terminal_without_completion = true;
            }
            if self.hooks_held {
                return MonitorAction::DropHooks;
            }
        }
        self.publish_or_shutdown_action()
    }

    fn publish_or_shutdown_action(&self) -> (action: MonitorAction)
        ensures
            action == publish_or_shutdown(self@),
    {
        if !self.hooks_held && (self.callback_finished || self.terminal_without_completion) && self.terminal.is_some() {
            MonitorAction::CheckBeforePublish
        } else {
            MonitorAction::CheckShutdown
        }
    }

    /// The hooks were let go.
    pub fn hooks_dropped(&mut self) -> (action: MonitorAction)
        ensures
            final(self)@ == (MonitorView { hooks_held: false, ..old(self)@ }),
            action == publish_or_shutdown(final(self)@),
            old(self)@.terminal is Some && old(self)@.terminal_without_completion ==> action == MonitorAction::CheckBeforePublish,
    {
        self.hooks_held = false;
        self.publish_or_shutdown_action()
    }

    /// Records the terminal result, once the hooks are gone and the callback
    /// returned (or the result does not depend on it), unless the target
    /// exited meanwhile; when its check fails, the result waits for the next
    /// poll. A success ends the injection's stage and failure and keeps the
    /// target; a failure is recorded for `STATUS` and the target is kept.
    pub fn publish(&mut self, registry: &mut InjectionRegistry, exited: Result<bool, String>, shutdown: bool) -> (action: MonitorAction)
        ensures
            publish_or_shutdown(old(self)@) != MonitorAction::CheckBeforePublish
                ==> action == MonitorAction::CheckShutdown && final(self)@ == old(self)@ && final(registry)@ == old(registry)@,
            (action matches MonitorAction::Finished(MonitorEnd::Published { .. })) ==> !old(self)@.hooks_held
                && old(self)@.terminal is Some && (old(self)@.callback_finished || old(self)@.terminal_without_completion),
            action is Finished ==> !final(registry)@.stages.contains_key(old(self)@.pid),
            publish_or_shutdown(old(self)@) == MonitorAction::CheckBeforePublish ==> match rv(exited) {
                Ok(true) => action == MonitorAction::Finished(MonitorEnd::TargetExited) && final(self)@ == old(self)@
                    && forgotten(old(registry)@, final(registry)@, old(self)@.pid),
                Err(_) => action == MonitorAction::Sleep && final(self)@ == old(self)@ && final(registry)@ == old(registry)@,
                Ok(false) => final(self)@ == MonitorView { terminal: None, ..old(self)@ } && match old(self)@.terminal->0 {
                    Ok(_) => action == MonitorAction::Finished(MonitorEnd::Published { disable_target: shutdown })
                        && final(registry)@.stages == old(registry)@.stages.remove(old(self)@.pid)
                        && final(registry)@.failures == old(registry)@.failures.remove(old(self)@.pid)
                        && final(registry)@.targets == old(registry)@.targets.insert(old(self)@.pid),
                    Err(d) => action == MonitorAction::Finished(MonitorEnd::Published { disable_target: false })
                        && final(registry)@.stages == old(registry)@.stages.remove(old(self)@.pid)
                        && final(registry)@.failures == old(registry)@.failures.insert(old(self)@.pid, d)
                        && final(registry)@.targets == old(registry)@.targets.insert(old(self)@.pid),
                },
            },
    {
        if !(!self.hooks_held && (self.callback_finished || self.terminal_without_completion) && self.terminal.is_some()) {
            return MonitorAction::CheckShutdown;
        }
        match exited {
            Ok(true) => {
                forget(registry, self.pid);
                return MonitorAction::Finished(MonitorEnd::TargetExited);
            },
            Err(_) => return MonitorAction::Sleep,
            Ok(false) => {},
        }
        let terminal = copy_callback(&self.terminal);
        self.terminal = None;
        match terminal {
            Some(CallbackResult::Completed { .. }) => {
                let disable = registry.finish_injection_success(self.pid, shutdown);
                MonitorAction::Finished(MonitorEnd::Published { disable_target: disable })
            },
            Some(CallbackResult::Failed(d)) => {
                registry.record_injection_failure(self.pid, d);
                registry.track_target(self.pid);
                MonitorAction::Finished(MonitorEnd::Published { disable_target: false })
            },
            None => MonitorAction::CheckShutdown,
        }
    }

    /// Once shutdown started, the target is disabled on every poll and the
    /// grace clock starts with the first.
    pub fn shutdown_checked(&mut self, shutdown: bool) -> (action: MonitorAction)
        ensures
            shutdown ==> final(self)@ == (MonitorView { grace_started: true, ..old(self)@ })
                && action == (MonitorAction::DisableForShutdown { start_grace: !old(self)@.grace_started }),
            !shutdown ==> final(self)@ == old(self)@ && action == MonitorAction::Sleep,
    {
        if shutdown {
            let start = !self.grace_started;
            self.grace_started = true;
            MonitorAction::DisableForShutdown { start_grace: start }
        } else {
            MonitorAction::Sleep
        }
    }

    /// When the shutdown grace has run out, the pending injection is
    /// abandoned and forgotten.
    pub fn grace_checked(&mut self, registry: &mut InjectionRegistry, elapsed: bool) -> (action: MonitorAction)
        ensures
            final(self)@ == old(self)@,
            elapsed ==> action == MonitorAction::Finished(MonitorEnd::Abandoned)
                && forgotten(old(registry)@, final(registry)@, old(self)@.pid),
            action is Finished ==> !final(registry)@.stages.contains_key(old(self)@.pid),
            !elapsed ==> action == MonitorAction::Sleep && final(registry)@ == old(registry)@,
    {
        if elapsed {
            forget(registry, self.pid);
            MonitorAction::Finished(MonitorEnd::Abandoned)
        } else {
            MonitorAction::Sleep
        }
    }
}

/// The failure of removing the installed hooks.
pub open spec fn unhook_failure(errors: Seq<Seq<char>>) -> Seq<char> {
    "UnhookWindowsHookEx failed; retaining the local DLL reference for active hooks: "@ + joined(errors, "; "@)
}

/// The result of removing the installed hooks, from the errors of the hooks
/// that could not be removed (those stay installed, and the local DLL
/// reference is kept for them; it is released once no hook is left).
pub fn hook_cleanup_result(errors: &[String]) -> (r: Result<(), String>)
    ensures
        errors@.len() == 0 ==> r is Ok,
        errors@.len() > 0 ==> (r matches Err(e) && e@ == unhook_failure(strings_view(errors@))),
{
    if errors.len() == 0 {
        return Ok(());
    }
    let mut e = string_of("UnhookWindowsHookEx failed; retaining the local DLL reference for active hooks: ");
    push_joined(&mut e, errors, "; ");
    Err(e)
}

/// The wait reports a completed injection only after the callback published
/// a handshake with its completion marker, its thread, a zero result and an
/// enabled or disabled state, and only in a poll where the target was running.
pub proof fn lemma_wait_completes_only_after_callback(
    w: HookWait,
    pid: u32,
    exited: Result<bool, Seq<char>>,
    handshake: Result<Option<SpeedpatchHandshake>, Seq<char>>,
    completion: Result<bool, Seq<char>>,
    handshake_again: Result<Option<SpeedpatchHandshake>, Seq<char>>,
    shutdown: bool,
    probe_due: bool,
    hooked: Seq<u32>,
    callback_thread: u32,
    state: SpeedpatchState,
)
    requires
        poll_spec(w, pid, exited, handshake, completion, handshake_again, shutdown, probe_due, hooked).1
            == WaitStepView::Finish(OutcomeView::Complete { callback_thread, state }),
    ensures
        exited == Ok::<bool, Seq<char>>(false),
        handshake matches Ok(Some(h)) && {
            &&& h.callback_completed
            &&& h.hook_thread_id == callback_thread && callback_thread != 0
            &&& h.init_result == 0
            &&& h.state == state
            &&& (state == SpeedpatchState::Enabled || state == SpeedpatchState::Disabled)
        },
{
}

/// The wait looks for the DLL in the target at most once.
pub proof fn lemma_wait_probes_at_most_once(
    w: HookWait,
    pid: u32,
    exited: Result<bool, Seq<char>>,
    handshake: Result<Option<SpeedpatchHandshake>, Seq<char>>,
    completion: Result<bool, Seq<char>>,
    handshake_again: Result<Option<SpeedpatchHandshake>, Seq<char>>,
    shutdown: bool,
    probe_due: bool,
    hooked: Seq<u32>,
)
    ensures
        w.probe_done ==> poll_spec(w, pid, exited, handshake, completion, handshake_again, shutdown, probe_due, hooked).1
            != WaitStepView::ProbeModule,
        poll_spec(w, pid, exited, handshake, completion, handshake_again, shutdown, probe_due, hooked).1 == WaitStepView::ProbeModule
            ==> poll_spec(w, pid, exited, handshake, completion, handshake_again, shutdown, probe_due, hooked).0.probe_done,
        w.probe_done ==> poll_spec(w, pid, exited, handshake, completion, handshake_again, shutdown, probe_due, hooked).0.probe_done,
{
}

/// Once shutdown has started, a poll of a running target that finds no
/// result ends the wait: pending if the callback was entered, failed if not.
pub proof fn lemma_wait_ends_on_shutdown(
    w: HookWait,
    pid: u32,
    handshake: Option<SpeedpatchHandshake>,
    completion: Result<bool, Seq<char>>,
    handshake_again: Result<Option<SpeedpatchHandshake>, Seq<char>>,
    probe_due: bool,
    hooked: Seq<u32>,
)
    ensures
        poll_spec(w, pid, Ok(false), Ok(handshake), completion, handshake_again, true, probe_due, hooked).1 is Finish
            || poll_spec(w, pid, Ok(false), Ok(handshake), completion, handshake_again, true, probe_due, hooked).1 is ReadLog,
        (poll_spec(w, pid, Ok(false), Ok(handshake), completion, handshake_again, true, probe_due, hooked).1
            matches WaitStepView::Finish(OutcomeView::Pending { .. }))
            ==> poll_spec(w, pid, Ok(false), Ok(handshake), completion, handshake_again, true, probe_due, hooked).0.observed_handshake,
{
}

/// Settling hands the installed hooks on (to the monitor) only together with
/// a pending injection; a completed or failed injection has released them.
pub proof fn lemma_settle_keeps_hooks_only_when_pending(
    pid: u32,
    wait: OutcomeView,
    handshake: Result<Option<SpeedpatchHandshake>, Seq<char>>,
    completion: Result<bool, Seq<char>>,
    handshake_again: Result<Option<SpeedpatchHandshake>, Seq<char>>,
    cleanup: Result<(), Seq<char>>,
    exited: Result<bool, Seq<char>>,
    error: Seq<char>,
)
    ensures
        settle_after_wait_spec(wait, handshake, completion, handshake_again) matches SettleView::Done { outcome, keep_hooks }
            ==> (keep_hooks ==> outcome is Pending),
        settle_after_release_spec(pid, wait, cleanup, exited) matches SettleView::Done { outcome, keep_hooks }
            ==> (keep_hooks ==> (outcome is Pending && cleanup is Err)),
        settle_after_recheck_spec(pid, error, exited, handshake) matches SettleView::Done { keep_hooks, .. } ==> (!keep_hooks),
{
}

/// A settle step that reports a completed injection.
pub open spec fn settles_complete(v: SettleView) -> bool {
    v matches SettleView::Done { outcome: OutcomeView::Complete { .. }, .. }
}

/// The settle step that reports a completed injection, its hooks released.
pub open spec fn settled_complete(callback_thread: u32, state: SpeedpatchState) -> SettleView {
    SettleView::Done { outcome: OutcomeView::Complete { callback_thread, state }, keep_hooks: false }
}

/// Settling reports a completed injection only when the wait completed or,
/// after a failed wait, when the handshake read again shows a callback that
/// completed with a zero result: never on a hook alone.
pub proof fn lemma_settle_completes_only_after_callback(
    pid: u32,
    wait: OutcomeView,
    handshake: Result<Option<SpeedpatchHandshake>, Seq<char>>,
    completion: Result<bool, Seq<char>>,
    handshake_again: Result<Option<SpeedpatchHandshake>, Seq<char>>,
    cleanup: Result<(), Seq<char>>,
    exited: Result<bool, Seq<char>>,
    error: Seq<char>,
    callback_thread: u32,
    state: SpeedpatchState,
)
    ensures
        !settles_complete(settle_after_wait_spec(wait, handshake, completion, handshake_again)),
        settle_after_release_spec(pid, wait, cleanup, exited) == settled_complete(callback_thread, state)
            ==> (wait == (OutcomeView::Complete { callback_thread, state })),
        settle_after_recheck_spec(pid, error, exited, handshake) == settled_complete(callback_thread, state)
            ==> (handshake matches Ok(Some(h)) && h.callback_completed && h.init_result == 0
            && h.hook_thread_id == callback_thread && h.state == state),
{
}

} // verus!
