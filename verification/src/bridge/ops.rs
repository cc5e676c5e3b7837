//! The decisions of the bridge's remote operations (status, enable, disable,
//! eject, inject), taken on what the caller observed of the target: the
//! handshake reading, the module list, the results of state writes.
use vstd::prelude::*;
use crate::bridge::handshake::{SpeedpatchHandshake, SpeedpatchState};
use crate::bridge::init_codes::{decode_initialize_exit_code, init_failure_message};
use crate::bridge::registry::{InjectionRegistry, InjectionStage};
use crate::text::{dec, hex, push_dec, push_hex, push_str, string_of};

verus! {

/// The explanation of a failed initialization result.
pub open spec fn failure_detail_spec(pid: u32, init_result: u32) -> Seq<char> {
    match init_failure_message(init_result) {
        Some(m) => m,
        None => "speedpatch reported FAILED for pid="@ + dec(pid as nat) + " without an initialization error code"@,
    }
}

/// The explanation of a failed initialization result.
pub fn initialization_failure_detail(pid: u32, init_result: u32) -> (d: String)
    ensures
        d@ == failure_detail_spec(pid, init_result),
{
    match decode_initialize_exit_code(init_result) {
        Ok(()) => {
            let mut d = string_of("speedpatch reported FAILED for pid=");
            push_dec(&mut d, pid as u64);
            push_str(&mut d, " without an initialization error code");
            d
        },
        Err(error) => error.detail,
    }
}

/// The failure to report for a target whose handshake says FAILED.
pub open spec fn persisted_failure_spec(recorded: Map<u32, Seq<char>>, pid: u32, h: SpeedpatchHandshake) -> Seq<char> {
    if recorded.contains_key(pid) {
        recorded[pid]
    } else if h.init_result != 0 {
        "SP_HookProc initialization failed for pid="@ + dec(pid as nat) + ", callback_thread="@
            + dec(h.hook_thread_id as nat) + ": "@ + failure_detail_spec(pid, h.init_result)
    } else {
        "SP_Initialize failed for pid="@ + dec(pid as nat)
            + " without a persisted native error; restart the target before retrying"@
    }
}

/// The remote answer of `STATUS <pid>`.
#[derive(Debug, PartialEq, Eq)]
pub enum InjectionStatus {
    Initializing,
    Disabled,
    Enabled,
    Failed(String),
    NotInjected,
}

/// `InjectionStatus` with its text seen as characters.
pub enum StatusView {
    Initializing,
    Disabled,
    Enabled,
    Failed(Seq<char>),
    NotInjected,
}

impl View for InjectionStatus {
    type V = StatusView;

    open spec fn view(&self) -> StatusView {
        match self {
            InjectionStatus::Initializing => StatusView::Initializing,
            InjectionStatus::Disabled => StatusView::Disabled,
            InjectionStatus::Enabled => StatusView::Enabled,
            InjectionStatus::Failed(d) => StatusView::Failed(d@),
            InjectionStatus::NotInjected => StatusView::NotInjected,
        }
    }
}

/// A module found in the target's module list.
pub struct RemoteModule {
    pub base: usize,
    pub path: String,
}

/// The failure reported when the DLL sits in the target without its handshake.
pub open spec fn orphan_module_message(pid: u32, dll_name: Seq<char>, base: usize, path: Seq<char>) -> Seq<char> {
    dll_name + " is loaded at 0x"@ + hex(base as nat) + " from "@ + path + ", but DzsSpeedy."@ + dec(pid as nat)
        + " is absent; SP_Initialize did not complete"@
}

/// What the enable/disable write loop does after one attempt.
pub enum WriteStep {
    /// Stop with this answer.
    Done(Result<(), String>),
    /// Wait and write again.
    Retry,
}

/// The number of state writes the bridge attempts before giving up.
pub const STATE_WRITE_ATTEMPTS: u32 = 30;
/// The pause before writing the state again, in milliseconds.
pub const STATE_WRITE_RETRY_MS: u64 = 50;

impl InjectionRegistry {
    /// The failure to report for a target whose handshake says FAILED: the
    /// failure recorded by this bridge if there is one, else one rebuilt from
    /// the handshake (so it survives a bridge restart).
    pub fn persisted_initialization_failure(&self, pid: u32, handshake: SpeedpatchHandshake) -> (d: String)
        ensures
            d@ == persisted_failure_spec(self@.failures, pid, handshake),
    {
        match self.injection_failure(pid) {
            Some(d) => d,
            None => {
                if handshake.init_result != 0 {
                    let mut d = string_of("SP_HookProc initialization failed for pid=");
                    push_dec(&mut d, pid as u64);
                    push_str(&mut d, ", callback_thread=");
                    push_dec(&mut d, handshake.hook_thread_id as u64);
                    push_str(&mut d, ": ");
                    let detail = initialization_failure_detail(pid, handshake.init_result);
                    push_str(&mut d, detail.as_str());
                    d
                } else {
                    let mut d = string_of("SP_Initialize failed for pid=");
                    push_dec(&mut d, pid as u64);
                    push_str(&mut d, " without a persisted native error; restart the target before retrying");
                    d
                }
            },
        }
    }

    /// Bookkeeping once an injection has completed: its stage and failure are
    /// cleared and the target is remembered. Returns whether the target must be
    /// disabled at once, which is the case exactly when shutdown has started.
    pub fn finish_injection_success(&mut self, pid: u32, shutdown_requested: bool) -> (disable_now: bool)
        ensures
            disable_now == shutdown_requested,
            final(self)@.stages == old(self)@.stages.remove(pid),
            final(self)@.failures == old(self)@.failures.remove(pid),
            final(self)@.targets == old(self)@.targets.insert(pid),
    {
        self.clear_injection_stage(pid);
        self.clear_injection_failure(pid);
        self.track_target(pid);
        shutdown_requested
    }

    /// `ISENABLED <pid>` given the handshake reading (`None`: no mapping).
    pub fn do_is_enabled(&self, pid: u32, handshake: Option<SpeedpatchHandshake>) -> (r: Result<bool, String>)
        ensures
            match handshake {
                Some(h) => match h.state {
                    SpeedpatchState::Enabled => r == Ok::<bool, String>(true),
                    SpeedpatchState::Disabled => r == Ok::<bool, String>(false),
                    SpeedpatchState::Initializing => r matches Err(e)
                        && e@ == "SP_Initialize is still running for pid="@ + dec(pid as nat),
                    SpeedpatchState::Failed => r matches Err(e) && e@ == persisted_failure_spec(self@.failures, pid, h),
                },
                None => r matches Err(e) && e@ == "no DzsSpeedy."@ + dec(pid as nat) + " mapping"@,
            },
    {
        match handshake {
            Some(h) => match h.state {
                SpeedpatchState::Enabled => Ok(true),
                SpeedpatchState::Disabled => Ok(false),
                SpeedpatchState::Initializing => {
                    let mut e = string_of("SP_Initialize is still running for pid=");
                    push_dec(&mut e, pid as u64);
                    Err(e)
                },
                SpeedpatchState::Failed => Err(self.persisted_initialization_failure(pid, h)),
            },
            None => {
                let mut e = string_of("no DzsSpeedy.");
                push_dec(&mut e, pid as u64);
                push_str(&mut e, " mapping");
                Err(e)
            },
        }
    }

    /// `STATUS <pid>` as far as the handshake reading and the bookkeeping
    /// decide it; `None` when only a look at the target's module list can.
    pub fn status_from_handshake(&mut self, pid: u32, handshake: Option<SpeedpatchHandshake>) -> (r: Option<InjectionStatus>)
        ensures
            match handshake {
                Some(h) => match h.state {
                    SpeedpatchState::Enabled => r == Some(InjectionStatus::Enabled)
                        && final(self)@.stages == old(self)@.stages.remove(pid)
                        && final(self)@.failures == old(self)@.failures.remove(pid)
                        && final(self)@.targets == old(self)@.targets.insert(pid),
                    SpeedpatchState::Disabled => r == Some(InjectionStatus::Disabled)
                        && final(self)@.stages == old(self)@.stages.remove(pid)
                        && final(self)@.failures == old(self)@.failures.remove(pid)
                        && final(self)@.targets == old(self)@.targets.insert(pid),
                    SpeedpatchState::Initializing => r == Some(InjectionStatus::Initializing)
                        && final(self)@.stages == old(self)@.stages.insert(pid, InjectionStage::Initializing)
                        && final(self)@.failures == old(self)@.failures
                        && final(self)@.targets == old(self)@.targets,
                    SpeedpatchState::Failed => (r matches Some(InjectionStatus::Failed(d))
                        && d@ == persisted_failure_spec(old(self)@.failures, pid, h))
                        && final(self)@.stages == old(self)@.stages.remove(pid)
                        && final(self)@.failures == old(self)@.failures
                        && final(self)@.targets == old(self)@.targets.remove(pid),
                },
                None => final(self)@ == old(self)@ && if old(self)@.stages.contains_key(pid) {
                    r == Some(InjectionStatus::Initializing)
                } else if old(self)@.failures.contains_key(pid) {
                    r matches Some(InjectionStatus::Failed(d)) && d@ == old(self)@.failures[pid]
                } else {
                    r is None
                },
            },
    {
        match handshake {
            Some(h) => match h.state {
                SpeedpatchState::Enabled => {
                    self.clear_injection_stage(pid);
                    self.clear_injection_failure(pid);
                    self.track_target(pid);
                    Some(InjectionStatus::Enabled)
                },
                SpeedpatchState::Disabled => {
                    self.clear_injection_stage(pid);
                    self.clear_injection_failure(pid);
                    self.track_target(pid);
                    Some(InjectionStatus::Disabled)
                },
                SpeedpatchState::Initializing => {
                    self.set_injection_stage(pid, InjectionStage::Initializing);
                    Some(InjectionStatus::Initializing)
                },
                SpeedpatchState::Failed => {
                    self.clear_injection_stage(pid);
                    self.untrack_target(pid);
                    Some(InjectionStatus::Failed(self.persisted_initialization_failure(pid, h)))
                },
            },
            None => {
                if self.injection_stage(pid).is_some() {
                    return Some(InjectionStatus::Initializing);
                }
                match self.injection_failure(pid) {
                    Some(detail) => Some(InjectionStatus::Failed(detail)),
                    None => None,
                }
            },
        }
    }

    /// `STATUS <pid>` when neither the handshake nor the bookkeeping decided
    /// it, given the DLL found in the target's module list, if any.
    pub fn status_from_module(&mut self, pid: u32, dll_name: &str, module: Option<RemoteModule>) -> (r: InjectionStatus)
        ensures
            match module {
                Some(m) => (r matches InjectionStatus::Failed(d) && d@ == orphan_module_message(pid, dll_name@, m.base, m.path@))
                    && final(self)@ == old(self)@,
                None => r == InjectionStatus::NotInjected
                    && final(self)@.targets == old(self)@.targets.remove(pid)
                    && final(self)@.stages == old(self)@.stages
                    && final(self)@.failures == old(self)@.failures,
            },
    {
        match module {
            Some(m) => {
                let mut d = string_of(dll_name);
                push_str(&mut d, " is loaded at 0x");
                push_hex(&mut d, m.base as u64);
                push_str(&mut d, " from ");
                push_str(&mut d, m.path.as_str());
                push_str(&mut d, ", but DzsSpeedy.");
                push_dec(&mut d, pid as u64);
                push_str(&mut d, " is absent; SP_Initialize did not complete");
                InjectionStatus::Failed(d)
            },
            None => {
                self.untrack_target(pid);
                InjectionStatus::NotInjected
            },
        }
    }

    /// The write-loop step after attempt number `attempt` (from zero) of an
    /// enable or disable: success remembers the target; a failure is retried
    /// until the last attempt, whose error is the answer.
    pub fn after_state_write(&mut self, pid: u32, attempt: u32, written: Result<(), String>) -> (step: WriteStep)
        ensures
            match written {
                Ok(_) => (step matches WriteStep::Done(r) && r is Ok)
                    && final(self)@.targets == old(self)@.targets.insert(pid)
                    && final(self)@.stages == old(self)@.stages
                    && final(self)@.failures == old(self)@.failures,
                Err(e) => final(self)@ == old(self)@ && if attempt + 1 < STATE_WRITE_ATTEMPTS {
                    step is Retry
                } else {
                    step matches WriteStep::Done(r) && r == Err::<(), String>(e)
                },
            },
    {
        match written {
            Ok(()) => {
                self.track_target(pid);
                WriteStep::Done(Ok(()))
            },
            Err(e) => {
                if attempt < STATE_WRITE_ATTEMPTS - 1 {
                    WriteStep::Retry
                } else {
                    WriteStep::Done(Err(e))
                }
            },
        }
    }

    /// The first step of `ENABLE <pid>`: `Some` answers at once from the
    /// handshake reading, `None` goes on to write the enabled state.
    pub fn enable_precheck(&mut self, pid: u32, handshake: Option<SpeedpatchHandshake>) -> (r: Option<Result<(), String>>)
        ensures
            match handshake {
                Some(h) => match h.state {
                    SpeedpatchState::Enabled => (r matches Some(x) && x is Ok)
                        && final(self)@.targets == old(self)@.targets.insert(pid)
                        && final(self)@.stages == old(self)@.stages
                        && final(self)@.failures == old(self)@.failures,
                    SpeedpatchState::Initializing => (r matches Some(Err(e))
                        && e@ == "INJECTION_PENDING: SP_Initialize is still running for pid="@ + dec(pid as nat))
                        && final(self)@ == old(self)@,
                    SpeedpatchState::Failed => (r matches Some(Err(e))
                        && e@ == persisted_failure_spec(old(self)@.failures, pid, h))
                        && final(self)@ == old(self)@,
                    SpeedpatchState::Disabled => r is None && final(self)@ == old(self)@,
                },
                None => r is None && final(self)@ == old(self)@,
            },
    {
        match handshake {
            Some(h) => match h.state {
                SpeedpatchState::Enabled => {
                    self.track_target(pid);
                    Some(Ok(()))
                },
                SpeedpatchState::Initializing => {
                    let mut e = string_of("INJECTION_PENDING: SP_Initialize is still running for pid=");
                    push_dec(&mut e, pid as u64);
                    Some(Err(e))
                },
                SpeedpatchState::Failed => Some(Err(self.persisted_initialization_failure(pid, h))),
                SpeedpatchState::Disabled => None,
            },
            None => None,
        }
    }

    /// The first step of `DISABLE <pid>` (and `EJECT <pid>`), on the answer of
    /// `STATUS <pid>`: `Some` answers at once, `None` goes on to write the
    /// disabled state.
    pub fn disable_precheck(&mut self, pid: u32, status: Result<InjectionStatus, String>) -> (r: Option<Result<(), String>>)
        ensures
            match status {
                Ok(InjectionStatus::NotInjected) => (r matches Some(x) && x is Ok)
                    && final(self)@.targets == old(self)@.targets.remove(pid)
                    && final(self)@.stages == old(self)@.stages
                    && final(self)@.failures == old(self)@.failures,
                Ok(InjectionStatus::Failed(d)) => r == Some(Err::<(), String>(d)) && final(self)@ == old(self)@,
                Err(e) => r == Some(Err::<(), String>(e)) && final(self)@ == old(self)@,
                _ => r is None && final(self)@ == old(self)@,
            },
    {
        match status {
            Ok(InjectionStatus::NotInjected) => {
                self.untrack_target(pid);
                Some(Ok(()))
            },
            Ok(InjectionStatus::Failed(d)) => Some(Err(d)),
            Err(e) => Some(Err(e)),
            _ => None,
        }
    }
}

} // verus!
