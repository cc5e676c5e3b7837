//! The decisions of `INJECT <pid>` and `EJECT <pid>`: refusing a second
//! injection while one runs, refusing the wrong bridge, reusing an existing
//! injection, and reading the outcome of the hook-based injection.
use vstd::prelude::*;
use crate::bridge::handshake::{SpeedpatchHandshake, SpeedpatchState, state_name, state_name_str};
use crate::bridge::ops::{persisted_failure_spec, RemoteModule};
use crate::bridge::registry::{InjectionRegistry, InjectionStage};
use crate::text::{dec, push_dec, push_str, string_of};

verus! {

/// The name that `{:?}` prints for a stage.
pub open spec fn stage_name(stage: InjectionStage) -> Seq<char> {
    match stage {
        InjectionStage::Loading => "Loading"@,
        InjectionStage::Initializing => "Initializing"@,
    }
}

/// `true` or `false`, as `{}` prints a `bool`.
pub open spec fn bool_text(b: bool) -> Seq<char> {
    if b { "true"@ } else { "false"@ }
}

fn bool_str(b: bool) -> (s: &'static str)
    ensures
        s@ == bool_text(b),
{
    if b { "true" } else { "false" }
}

/// What `INJECT` does after looking at the target.
pub enum InjectPlan {
    /// Answer at once.
    Answer(Result<(), String>),
    /// The DLL is initialized but disabled: run the enable flow instead.
    EnableExisting,
    /// Nothing is loaded: install the hook.
    Inject,
}

/// The refusal when the DLL is loaded but its handshake mapping is gone.
pub open spec fn orphan_dll_message(pid: u32, dll_name: Seq<char>, loaded_from: Seq<char>, previous: Option<Seq<char>>) -> Seq<char> {
    dll_name + " is already loaded in pid="@ + dec(pid as nat) + " from "@ + loaded_from
        + ", but its status mapping is absent. Automatic recovery is disabled so injection always follows one fixed SetWindowsHookExW -> SP_HookProc chain."@
        + (match previous { Some(d) => " Previous failure: "@ + d + "."@, None => Seq::<char>::empty() })
        + " Restart the target process before retrying."@
}

/// The refusal when the handshake exists but the expected DLL is not loaded.
pub open spec fn false_positive_message(pid: u32, state: SpeedpatchState, dll_path: Seq<char>) -> Seq<char> {
    "DzsSpeedy."@ + dec(pid as nat) + " reports "@ + state_name(state) + ", but the expected DLL is not loaded from "@
        + dll_path + "; refusing a false-positive injection state"@
}

impl InjectionRegistry {
    /// Refuses a second injection of `pid` while a stage of the first still runs.
    pub fn inject_precheck(&self, pid: u32) -> (r: Result<(), String>)
        ensures
            if self@.stages.contains_key(pid) {
                r matches Err(e) && e@ == "INJECTION_PENDING: the existing "@ + stage_name(self@.stages[pid])
                    + " stage is still running for pid="@ + dec(pid as nat)
            } else {
                r is Ok
            },
    {
        match self.injection_stage(pid) {
            Some(stage) => {
                let mut e = string_of("INJECTION_PENDING: the existing ");
                push_str(&mut e, match stage { InjectionStage::Loading => "Loading", InjectionStage::Initializing => "Initializing" });
                push_str(&mut e, " stage is still running for pid=");
                push_dec(&mut e, pid as u64);
                Err(e)
            },
            None => Ok(()),
        }
    }

    /// Decides `INJECT <pid>` from the speedpatch module found in the target
    /// (if any) and the handshake reading (if any).
    pub fn plan_injection(
        &mut self,
        pid: u32,
        dll_name: &str,
        dll_path: &str,
        module: Option<RemoteModule>,
        handshake: Option<SpeedpatchHandshake>,
    ) -> (plan: InjectPlan)
        ensures
            match (module, handshake) {
                (Some(_), Some(h)) => match h.state {
                    SpeedpatchState::Enabled => (plan matches InjectPlan::Answer(r) && r is Ok)
                        && final(self)@.failures == old(self)@.failures.remove(pid)
                        && final(self)@.targets == old(self)@.targets.insert(pid)
                        && final(self)@.stages == old(self)@.stages,
                    SpeedpatchState::Disabled => plan is EnableExisting
                        && final(self)@.failures == old(self)@.failures.remove(pid)
                        && final(self)@.targets == old(self)@.targets
                        && final(self)@.stages == old(self)@.stages,
                    SpeedpatchState::Initializing => (plan matches InjectPlan::Answer(Err(e))
                        && e@ == "INJECTION_PENDING: SP_Initialize is still running for pid="@ + dec(pid as nat))
                        && final(self)@.stages == old(self)@.stages.insert(pid, InjectionStage::Initializing)
                        && final(self)@.targets == old(self)@.targets.insert(pid)
                        && final(self)@.failures == old(self)@.failures,
                    SpeedpatchState::Failed => (plan matches InjectPlan::Answer(Err(e))
                        && e@ == persisted_failure_spec(old(self)@.failures, pid, h))
                        && final(self)@.targets == old(self)@.targets.remove(pid)
                        && final(self)@.stages == old(self)@.stages
                        && final(self)@.failures == old(self)@.failures,
                },
                (None, Some(h)) => (plan matches InjectPlan::Answer(Err(e))
                        && e@ == false_positive_message(pid, h.state, dll_path@))
                    && final(self)@.targets == old(self)@.targets.remove(pid)
                    && final(self)@.stages == old(self)@.stages
                    && final(self)@.failures == old(self)@.failures,
                (Some(m), None) => (plan matches InjectPlan::Answer(Err(e))
                        && e@ == orphan_dll_message(pid, dll_name@, m.path@,
                            if old(self)@.failures.contains_key(pid) { Some(old(self)@.failures[pid]) } else { None }))
                    && final(self)@.targets == old(self)@.targets.remove(pid)
                    && final(self)@.stages == old(self)@.stages
                    && final(self)@.failures == old(self)@.failures,
                (None, None) => plan is Inject
                    && final(self)@.failures == old(self)@.failures.remove(pid)
                    && final(self)@.targets == old(self)@.targets.insert(pid)
                    && final(self)@.stages == old(self)@.stages.insert(pid, InjectionStage::Loading),
            },
    {
        match (module, handshake) {
            (Some(_), Some(h)) => match h.state {
                SpeedpatchState::Enabled => {
                    self.clear_injection_failure(pid);
                    self.track_target(pid);
                    InjectPlan::Answer(Ok(()))
                },
                SpeedpatchState::Disabled => {
                    self.clear_injection_failure(pid);
                    InjectPlan::EnableExisting
                },
                SpeedpatchState::Initializing => {
                    self.set_injection_stage(pid, InjectionStage::Initializing);
                    self.track_target(pid);
                    let mut e = string_of("INJECTION_PENDING: SP_Initialize is still running for pid=");
                    push_dec(&mut e, pid as u64);
                    InjectPlan::Answer(Err(e))
                },
                SpeedpatchState::Failed => {
                    self.untrack_target(pid);
                    InjectPlan::Answer(Err(self.persisted_initialization_failure(pid, h)))
                },
            },
            (None, Some(h)) => {
                self.untrack_target(pid);
                let mut e = string_of("DzsSpeedy.");
                push_dec(&mut e, pid as u64);
                push_str(&mut e, " reports ");
                push_str(&mut e, state_name_str(h.state));
                push_str(&mut e, ", but the expected DLL is not loaded from ");
                push_str(&mut e, dll_path);
                push_str(&mut e, "; refusing a false-positive injection state");
                InjectPlan::Answer(Err(e))
            },
            (Some(m), None) => {
                self.untrack_target(pid);
                let previous = self.injection_failure(pid);
                let mut e = string_of(dll_name);
                push_str(&mut e, " is already loaded in pid=");
                push_dec(&mut e, pid as u64);
                push_str(&mut e, " from ");
                push_str(&mut e, m.path.as_str());
                push_str(&mut e, ", but its status mapping is absent. Automatic recovery is disabled so injection always follows one fixed SetWindowsHookExW -> SP_HookProc chain.");
                let ghost before_previous = e@;
                match previous {
                    Some(d) => {
                        push_str(&mut e, " Previous failure: ");
                        push_str(&mut e, d.as_str());
                        push_str(&mut e, ".");
                    },
                    None => {
                        proof { assert(e@ =~= before_previous + Seq::<char>::empty()); }
                    },
                }
                push_str(&mut e, " Restart the target process before retrying.");
                InjectPlan::Answer(Err(e))
            },
            (None, None) => {
                self.clear_injection_failure(pid);
                self.track_target(pid);
                self.set_injection_stage(pid, InjectionStage::Loading);
                InjectPlan::Inject
            },
        }
    }

    /// `INJECT <pid>` once the hook callback completed with `state`: the
    /// bookkeeping of a success, and whether shutdown asks for an immediate
    /// disable. Only an enabled target is a successful injection.
    pub fn injection_completed(&mut self, pid: u32, callback_thread: u32, state: SpeedpatchState, shutdown_requested: bool) -> (r: (Result<(), String>, bool))
        ensures
            r.1 == shutdown_requested,
            state == SpeedpatchState::Enabled ==> r.0 is Ok,
            state != SpeedpatchState::Enabled ==> (r.0 matches Err(e) && e@ == "INJECTION_DISABLED: SP_HookProc initialized pid="@
                + dec(pid as nat) + " on thread="@ + dec(callback_thread as nat)
                + ", but acceleration was disabled before completion"@),
            final(self)@.stages == old(self)@.stages.remove(pid),
            final(self)@.failures == old(self)@.failures.remove(pid),
            final(self)@.targets == old(self)@.targets.insert(pid),
    {
        let disable_now = self.finish_injection_success(pid, shutdown_requested);
        if state == SpeedpatchState::Enabled {
            (Ok(()), disable_now)
        } else {
            let mut e = string_of("INJECTION_DISABLED: SP_HookProc initialized pid=");
            push_dec(&mut e, pid as u64);
            push_str(&mut e, " on thread=");
            push_dec(&mut e, callback_thread as u64);
            push_str(&mut e, ", but acceleration was disabled before completion");
            (Err(e), disable_now)
        }
    }

    /// `INJECT <pid>` when the callback is still running and a monitor takes
    /// over: the answer, which the monitor also keeps as its pending detail.
    pub fn injection_pending(&mut self, pid: u32, callback_thread: u32, detail: &str) -> (response: String)
        ensures
            response@ == "INJECTION_PENDING: "@ + detail@ + "; callback_thread="@ + dec(callback_thread as nat),
            final(self)@.stages == old(self)@.stages.insert(pid, InjectionStage::Initializing),
            final(self)@.failures == old(self)@.failures,
            final(self)@.targets == old(self)@.targets,
    {
        let mut response = string_of("INJECTION_PENDING: ");
        push_str(&mut response, detail);
        push_str(&mut response, "; callback_thread=");
        push_dec(&mut response, callback_thread as u64);
        self.set_injection_stage(pid, InjectionStage::Initializing);
        response
    }

    /// `INJECT <pid>` when the hook-based injection failed: the failure is
    /// recorded for later `STATUS` queries and answered.
    pub fn injection_failed(&mut self, pid: u32, dll_path: &str, detail: &str) -> (failure: String)
        ensures
            failure@ == "SetWindowsHookExW injection failed for pid="@ + dec(pid as nat) + ", dll="@ + dll_path@ + ": "@ + detail@,
            final(self)@.failures == old(self)@.failures.insert(pid, failure@),
            final(self)@.stages == old(self)@.stages.remove(pid),
            final(self)@.targets == old(self)@.targets,
    {
        let mut failure = string_of("SetWindowsHookExW injection failed for pid=");
        push_dec(&mut failure, pid as u64);
        push_str(&mut failure, ", dll=");
        push_str(&mut failure, dll_path);
        push_str(&mut failure, ": ");
        push_str(&mut failure, detail);
        self.record_injection_failure(pid, failure.clone());
        failure
    }

    /// `EJECT <pid>` after its disable step: the target is forgotten when the
    /// disable succeeded (the DLL itself stays until the target exits).
    pub fn finish_eject(&mut self, pid: u32, disabled: Result<(), String>) -> (r: Result<(), String>)
        ensures
            r == disabled,
            disabled is Ok ==> final(self)@.targets == old(self)@.targets.remove(pid)
                && final(self)@.stages == old(self)@.stages && final(self)@.failures == old(self)@.failures,
            disabled is Err ==> final(self)@ == old(self)@,
    {
        if disabled.is_ok() {
            self.untrack_target(pid);
        }
        disabled
    }
}

/// Refuses a target whose bitness differs from this bridge's.
pub fn architecture_check(pid: u32, bridge_is64: bool, target_is64: bool) -> (r: Result<(), String>)
    ensures
        bridge_is64 == target_is64 ==> r is Ok,
        bridge_is64 != target_is64 ==> (r matches Err(e) && e@ == "bridge/target architecture mismatch: bridge_is64="@
            + bool_text(bridge_is64) + " target_is64="@ + bool_text(target_is64) + " pid="@ + dec(pid as nat)),
{
    if bridge_is64 == target_is64 {
        return Ok(());
    }
    let mut e = string_of("bridge/target architecture mismatch: bridge_is64=");
    push_str(&mut e, bool_str(bridge_is64));
    push_str(&mut e, " target_is64=");
    push_str(&mut e, bool_str(target_is64));
    push_str(&mut e, " pid=");
    push_dec(&mut e, pid as u64);
    Err(e)
}

/// The refusal when the speedpatch DLL is not next to the bridge.
pub fn missing_dll_error(dll_path: &str, own_speedpatch: &str, target_is64: bool) -> (e: String)
    ensures
        e@ == "speedpatch DLL missing next to bridge: "@ + dll_path@ + " (bridge arch="@ + own_speedpatch@
            + ", target is64="@ + bool_text(target_is64) + ")"@,
{
    let mut e = string_of("speedpatch DLL missing next to bridge: ");
    push_str(&mut e, dll_path);
    push_str(&mut e, " (bridge arch=");
    push_str(&mut e, own_speedpatch);
    push_str(&mut e, ", target is64=");
    push_str(&mut e, bool_str(target_is64));
    push_str(&mut e, ")");
    e
}

} // verus!
