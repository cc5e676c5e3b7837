//! Lock-free words shared between threads (the operation counter) and with
//! the speedpatch DLL (the state word): each update is one atomic
//! read-modify-write whose rule is a verified function of the old value.
use vstd::prelude::*;
use std::sync::atomic::{AtomicU32, Ordering};
use crate::bridge::handshake::{
    unsupported_state_error, unsupported_state_message, SP_STATE_DISABLED, SP_STATE_ENABLED,
    SP_STATE_FAILED, SP_STATE_INITIALIZING,
};
use crate::text::{dec, push_dec, push_str, string_of};

verus! {

/// Top bit of the operation word: shutdown has started.
pub const OPERATION_SHUTDOWN_BIT: u32 = 0x8000_0000;
/// Low bits of the operation word: the number of operations in flight.
pub const OPERATION_COUNT_MASK: u32 = 0x7fff_ffff;

/// The read-modify-write rules applied to shared words.
#[derive(Clone, Copy)]
pub enum UpdateRule {
    /// Count one more operation in flight, unless shutdown started or the count is full.
    AdmitOperation,
    /// Move speedpatch's state word to enabled or disabled where the protocol allows it.
    SetSpeedpatchState { enabled: bool },
}

/// Whether the operation word says that shutdown has started.
pub open spec fn shutdown_bit_set(word: u32) -> bool {
    word >= OPERATION_SHUTDOWN_BIT
}

/// The number of operations in flight recorded in the operation word.
pub open spec fn operation_count(word: u32) -> u32 {
    (word % 0x8000_0000) as u32
}

/// The state word speedpatch is asked to hold.
pub open spec fn desired_state(enabled: bool) -> u32 {
    if enabled { SP_STATE_ENABLED } else { SP_STATE_DISABLED }
}

/// The new value a rule writes over `old`, or `None` when it leaves it alone.
pub open spec fn rule_next(rule: UpdateRule, old: u32) -> Option<u32> {
    match rule {
        UpdateRule::AdmitOperation => if shutdown_bit_set(old) || old == OPERATION_COUNT_MASK {
            None
        } else {
            Some((old + 1) as u32)
        },
        UpdateRule::SetSpeedpatchState { enabled } => {
            let desired = desired_state(enabled);
            if old != desired && (old == SP_STATE_DISABLED || old == SP_STATE_ENABLED || (old == SP_STATE_INITIALIZING && !enabled)) {
                Some(desired)
            } else {
                None
            }
        },
    }
}

/// Applies a rule to one value.
pub fn apply_rule(rule: UpdateRule, old: u32) -> (next: Option<u32>)
    ensures
        next == rule_next(rule, old),
{
    match rule {
        UpdateRule::AdmitOperation => {
            if old & OPERATION_SHUTDOWN_BIT != 0 {
                assert((old & 0x8000_0000u32 != 0) == (old >= 0x8000_0000u32)) by (bit_vector);
                return None;
            }
            assert((old & 0x8000_0000u32 != 0) == (old >= 0x8000_0000u32)) by (bit_vector);
            assert(old < 0x8000_0000u32 ==> old & 0x7fff_ffffu32 == old) by (bit_vector);
            if old & OPERATION_COUNT_MASK == OPERATION_COUNT_MASK {
                None
            } else {
                Some(old + 1)
            }
        },
        UpdateRule::SetSpeedpatchState { enabled } => {
            let desired = if enabled { SP_STATE_ENABLED } else { SP_STATE_DISABLED };
            if old != desired && (old == SP_STATE_DISABLED || old == SP_STATE_ENABLED || (old == SP_STATE_INITIALIZING && !enabled)) {
                Some(desired)
            } else {
                None
            }
        },
    }
}

/// Atomically applies `rule` to `word` (std `AtomicU32::fetch_update`, with
/// acquire-release ordering on success and acquire on reads). The old value
/// comes back in `Ok` when the rule wrote a new one and in `Err` when it did
/// not; which old value that is depends on the other threads and processes
/// sharing the word, so nothing more is claimed.
#[verifier::external_body]
fn fetch_update_with(word: &AtomicU32, rule: UpdateRule) -> (r: Result<u32, u32>)
    ensures
        update_observed(rule, r),
{
    word.fetch_update(Ordering::AcqRel, Ordering::Acquire, |v| apply_rule(rule, v))
}

/// The refusal when shutdown has started.
pub open spec fn shutdown_refusal() -> Seq<char> {
    "bridge shutdown is in progress; operation was not started"@
}

/// The refusal when the operation count is full.
pub open spec fn busy_refusal() -> Seq<char> {
    "too many concurrent bridge operations"@
}

/// What an admission attempt that observed `old` answers.
pub open spec fn admission_outcome_spec(observed: Result<u32, u32>) -> Result<(), Seq<char>> {
    match observed {
        Ok(_) => Ok(()),
        Err(old) => if shutdown_bit_set(old) { Err(shutdown_refusal()) } else { Err(busy_refusal()) },
    }
}

/// What an admission attempt answers, given what the atomic update returned.
pub fn admission_outcome(observed: Result<u32, u32>) -> (r: Result<(), String>)
    ensures
        crate::client::unit_outcome(r) == admission_outcome_spec(observed),
{
    match observed {
        Ok(_) => Ok(()),
        Err(old) => {
            assert((old & 0x8000_0000u32 != 0) == (old >= 0x8000_0000u32)) by (bit_vector);
            if old & OPERATION_SHUTDOWN_BIT != 0 {
                Err(string_of("bridge shutdown is in progress; operation was not started"))
            } else {
                Err(string_of("too many concurrent bridge operations"))
            }
        },
    }
}

/// Whether `observed` is what an atomic update of a word by `rule` can return:
/// `Ok(old)` when the rule wrote `rule_next(rule, old)` over `old`, `Err(old)`
/// when it left `old` in place.
pub open spec fn update_observed(rule: UpdateRule, observed: Result<u32, u32>) -> bool {
    match observed {
        Ok(old) => rule_next(rule, old) is Some,
        Err(old) => rule_next(rule, old) is None,
    }
}

/// The admission step on the operation word: one atomic update by the
/// admission rule (count one more operation unless shutdown has started or
/// the count is full). Returns the old value, in `Ok` when the count was raised.
pub fn admit_operation(state: &AtomicU32) -> (observed: Result<u32, u32>)
    ensures
        update_observed(UpdateRule::AdmitOperation, observed),
{
    fetch_update_with(state, UpdateRule::AdmitOperation)
}

/// Admits one more remote operation: refused once shutdown has started or when
/// the count is full; otherwise the count grows by one.
pub fn try_acquire_operation_slot(state: &AtomicU32) -> (r: Result<(), String>)
    ensures
        exists|observed: Result<u32, u32>|
            update_observed(UpdateRule::AdmitOperation, observed)
            && crate::client::unit_outcome(r) == admission_outcome_spec(observed),
{
    let observed = admit_operation(state);
    admission_outcome(observed)
}

/// Whether shutdown has started, read from an operation word.
pub fn shutdown_requested(word: u32) -> (b: bool)
    ensures
        b == shutdown_bit_set(word),
{
    assert((word & 0x8000_0000u32 != 0) == (word >= 0x8000_0000u32)) by (bit_vector);
    word & OPERATION_SHUTDOWN_BIT != 0
}

/// The number of operations in flight, read from an operation word.
pub fn active_remote_operations(word: u32) -> (n: u32)
    ensures
        n == operation_count(word),
{
    assert(word & 0x7fff_ffffu32 == word % 0x8000_0000u32) by (bit_vector);
    word & OPERATION_COUNT_MASK
}

/// The operation word once shutdown has been requested.
pub fn request_shutdown(word: u32) -> (next: u32)
    ensures
        shutdown_bit_set(next),
        operation_count(next) == operation_count(word),
{
    assert((word | 0x8000_0000u32) >= 0x8000_0000u32) by (bit_vector);
    assert((word | 0x8000_0000u32) % 0x8000_0000u32 == word % 0x8000_0000u32) by (bit_vector);
    word | OPERATION_SHUTDOWN_BIT
}

/// Once shutdown has started no operation is admitted; an admitted operation
/// raises the count by exactly one and leaves the shutdown bit clear.
pub proof fn lemma_admission(word: u32)
    ensures
        shutdown_bit_set(word) ==> rule_next(UpdateRule::AdmitOperation, word) is None,
        rule_next(UpdateRule::AdmitOperation, word) matches Some(next) ==> !shutdown_bit_set(next)
            && operation_count(next) == operation_count(word) + 1,
{
}

/// The value an atomic update found in the word, whether or not it wrote over it.
pub open spec fn observed_old(observed: Result<u32, u32>) -> u32 {
    match observed {
        Ok(old) => old,
        Err(old) => old,
    }
}

/// Admission in one atomic step: it is granted exactly when the word it found
/// had no shutdown bit and a count below the maximum, and then the word moved
/// from that value to the same value with the count raised by one and the
/// shutdown bit still clear; when refused, the word was left as it was found.
pub proof fn lemma_admission_step(observed: Result<u32, u32>)
    requires
        update_observed(UpdateRule::AdmitOperation, observed),
    ensures
        admission_outcome_spec(observed) is Ok <==> (!shutdown_bit_set(observed_old(observed))
            && operation_count(observed_old(observed)) != OPERATION_COUNT_MASK),
        admission_outcome_spec(observed) is Ok <==> observed is Ok,
        observed matches Ok(old) ==> rule_next(UpdateRule::AdmitOperation, old) == Some((old + 1) as u32)
            && !shutdown_bit_set((old + 1) as u32)
            && operation_count((old + 1) as u32) == operation_count(old) + 1,
        shutdown_bit_set(observed_old(observed)) ==> admission_outcome_spec(observed) == Err::<(), Seq<char>>(shutdown_refusal()),
{
}

/// The state write in one atomic step, by the word it found: FAILED is kept
/// and answered with a restart request; INITIALIZING is kept when enabling and
/// answered as pending; DISABLED and ENABLED (and INITIALIZING when disabling)
/// answer `Ok`, the word then holding the requested state (written over it
/// unless it already held it); any other value is kept and answered as an
/// unsupported state.
pub proof fn lemma_state_write_step(pid: u32, enabled: bool, observed: Result<u32, u32>)
    requires
        update_observed(UpdateRule::SetSpeedpatchState { enabled }, observed),
    ensures
        observed_old(observed) == SP_STATE_FAILED ==> observed is Err
            && state_write_outcome_spec(pid, enabled, observed) == Err::<(), Seq<char>>(
                "SP_Initialize failed for pid="@ + dec(pid as nat) + "; restart the target before changing state"@),
        enabled && observed_old(observed) == SP_STATE_INITIALIZING ==> observed is Err
            && state_write_outcome_spec(pid, enabled, observed) == Err::<(), Seq<char>>(
                "INJECTION_PENDING: SP_Initialize is still running for pid="@ + dec(pid as nat)),
        (observed_old(observed) == SP_STATE_DISABLED || observed_old(observed) == SP_STATE_ENABLED
            || (!enabled && observed_old(observed) == SP_STATE_INITIALIZING)) ==> state_write_outcome_spec(pid, enabled, observed) is Ok
            && (observed_old(observed) != desired_state(enabled) ==> observed is Ok),
        observed matches Ok(old) ==> rule_next(UpdateRule::SetSpeedpatchState { enabled }, old) == Some(desired_state(enabled)),
        !(observed_old(observed) == SP_STATE_DISABLED || observed_old(observed) == SP_STATE_ENABLED
            || observed_old(observed) == SP_STATE_FAILED || observed_old(observed) == SP_STATE_INITIALIZING) ==> observed is Err
            && state_write_outcome_spec(pid, enabled, observed) == Err::<(), Seq<char>>(unsupported_state_message(pid, observed_old(observed))),
{
}

/// What the state write answers for `pid` after the atomic update returned `observed`.
pub open spec fn state_write_outcome_spec(pid: u32, enabled: bool, observed: Result<u32, u32>) -> Result<(), Seq<char>> {
    match observed {
        Ok(_) => Ok(()),
        Err(old) => if old == desired_state(enabled) {
            Ok(())
        } else if old == SP_STATE_FAILED {
            Err("SP_Initialize failed for pid="@ + dec(pid as nat) + "; restart the target before changing state"@)
        } else if old == SP_STATE_INITIALIZING && enabled {
            Err("INJECTION_PENDING: SP_Initialize is still running for pid="@ + dec(pid as nat))
        } else {
            Err(unsupported_state_message(pid, old))
        },
    }
}

/// What the state write answers, given what the atomic update returned.
pub fn state_write_outcome(pid: u32, enabled: bool, observed: Result<u32, u32>) -> (r: Result<(), String>)
    ensures
        crate::client::unit_outcome(r) == state_write_outcome_spec(pid, enabled, observed),
{
    match observed {
        Ok(_) => Ok(()),
        Err(old) => {
            let desired = if enabled { SP_STATE_ENABLED } else { SP_STATE_DISABLED };
            if old == desired {
                Ok(())
            } else if old == SP_STATE_FAILED {
                let mut msg = string_of("SP_Initialize failed for pid=");
                push_dec(&mut msg, pid as u64);
                push_str(&mut msg, "; restart the target before changing state");
                Err(msg)
            } else if old == SP_STATE_INITIALIZING && enabled {
                let mut msg = string_of("INJECTION_PENDING: SP_Initialize is still running for pid=");
                push_dec(&mut msg, pid as u64);
                Err(msg)
            } else {
                Err(unsupported_state_error(pid, old))
            }
        },
    }
}

/// The state step on speedpatch's state word: one atomic update by the state
/// rule (move between disabled and enabled, or from initializing to disabled).
/// Returns the old value, in `Ok` when the requested state was written.
pub fn swap_speedpatch_state(state: &AtomicU32, enabled: bool) -> (observed: Result<u32, u32>)
    ensures
        update_observed(UpdateRule::SetSpeedpatchState { enabled }, observed),
{
    fetch_update_with(state, UpdateRule::SetSpeedpatchState { enabled })
}

/// Sets speedpatch's state word (the first word of `DzsSpeedy.<pid>`) to
/// enabled or disabled in one atomic step. A failed initialization is never
/// overwritten, and enabling waits for initialization to finish.
pub fn write_speedpatch_enabled(pid: u32, state: &AtomicU32, enabled: bool) -> (r: Result<(), String>)
    ensures
        exists|observed: Result<u32, u32>|
            update_observed(UpdateRule::SetSpeedpatchState { enabled }, observed)
            && crate::client::unit_outcome(r) == state_write_outcome_spec(pid, enabled, observed),
{
    let observed = swap_speedpatch_state(state, enabled);
    state_write_outcome(pid, enabled, observed)
}

/// The state rule never overwrites a failed initialization, never writes the
/// initializing state, and only ever writes the requested state.
pub proof fn lemma_state_rule(enabled: bool, old: u32)
    ensures
        rule_next(UpdateRule::SetSpeedpatchState { enabled }, SP_STATE_FAILED) is None,
        rule_next(UpdateRule::SetSpeedpatchState { enabled: true }, SP_STATE_INITIALIZING) is None,
        rule_next(UpdateRule::SetSpeedpatchState { enabled }, old) matches Some(next) ==> next == desired_state(enabled),
{
}

/// How long shutdown waits for operations in flight before exiting anyway.
pub const SHUTDOWN_DRAIN_DEADLINE_SECS: u64 = 8;
/// The pause between two looks at the operation word while draining, in milliseconds.
pub const DRAIN_POLL_MS: u64 = 25;

/// One look of the shutdown drain at the operation word: `Some(true)` once no
/// operation is in flight, `Some(false)` when the deadline has passed with
/// some still running, `None` to keep waiting.
pub fn drain_outcome(word: u32, deadline_passed: bool) -> (r: Option<bool>)
    ensures
        operation_count(word) == 0 ==> r == Some(true),
        operation_count(word) != 0 && deadline_passed ==> r == Some(false),
        operation_count(word) != 0 && !deadline_passed ==> r is None,
{
    if active_remote_operations(word) == 0 {
        Some(true)
    } else if deadline_passed {
        Some(false)
    } else {
        None
    }
}

} // verus!
