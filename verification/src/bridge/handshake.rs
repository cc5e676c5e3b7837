//! The handshake that speedpatch publishes in its `DzsSpeedy.<pid>` mapping:
//! three 32-bit words (state, initialization result, hook thread id with a
//! completion marker in the top bit).
use vstd::prelude::*;
use crate::text::{dec, hex_padded, push_dec, push_hex_padded, push_str, string_of};

verus! {

/// State word: initialization still running.
pub const SP_STATE_INITIALIZING: u32 = 0x49;
/// State word: initialized, acceleration off.
pub const SP_STATE_DISABLED: u32 = 0x44;
/// State word: initialized, acceleration on.
pub const SP_STATE_ENABLED: u32 = 0x45;
/// State word: initialization failed for good.
pub const SP_STATE_FAILED: u32 = 0x46;
/// Top bit of the thread word: the hook callback has returned.
pub const SP_HOOK_COMPLETED_BIT: u32 = 0x8000_0000;
/// The Win32 `ERROR_IO_PENDING` code, published while initialization runs.
pub const ERROR_IO_PENDING: u32 = 997;

/// The state that speedpatch reports for a target.
#[derive(Debug, Clone, Copy, PartialEq, Eq, Structural)]
pub enum SpeedpatchState {
    Initializing,
    Disabled,
    Enabled,
    Failed,
}

/// One reading of the handshake mapping.
#[derive(Debug, Clone, Copy, PartialEq, Eq, Structural)]
pub struct SpeedpatchHandshake {
    pub state: SpeedpatchState,
    pub init_result: u32,
    pub hook_thread_id: u32,
    pub callback_completed: bool,
}

/// The name that `{:?}` prints for a state.
pub open spec fn state_name(state: SpeedpatchState) -> Seq<char> {
    match state {
        SpeedpatchState::Initializing => "Initializing"@,
        SpeedpatchState::Disabled => "Disabled"@,
        SpeedpatchState::Enabled => "Enabled"@,
        SpeedpatchState::Failed => "Failed"@,
    }
}

/// The name that `{:?}` prints for a state.
pub fn state_name_str(state: SpeedpatchState) -> (name: &'static str)
    ensures
        name@ == state_name(state),
{
    match state {
        SpeedpatchState::Initializing => "Initializing",
        SpeedpatchState::Disabled => "Disabled",
        SpeedpatchState::Enabled => "Enabled",
        SpeedpatchState::Failed => "Failed",
    }
}

/// The state that a state word stands for, if it is one of the protocol's.
pub open spec fn state_from_word(word: u32) -> Option<SpeedpatchState> {
    if word == 0 || word == SP_STATE_INITIALIZING {
        Some(SpeedpatchState::Initializing)
    } else if word == SP_STATE_DISABLED {
        Some(SpeedpatchState::Disabled)
    } else if word == SP_STATE_ENABLED {
        Some(SpeedpatchState::Enabled)
    } else if word == SP_STATE_FAILED {
        Some(SpeedpatchState::Failed)
    } else {
        None
    }
}

/// The error for a state word outside the protocol.
pub open spec fn unsupported_state_message(pid: u32, word: u32) -> Seq<char> {
    "DzsSpeedy."@ + dec(pid as nat) + " contains unsupported state value 0x"@ + hex_padded(word as nat, 8)
        + "; DLL/bridge protocol mismatch"@
}

/// The error for a state word outside the protocol.
pub fn unsupported_state_error(pid: u32, word: u32) -> (msg: String)
    ensures
        msg@ == unsupported_state_message(pid, word),
{
    let mut msg = string_of("DzsSpeedy.");
    push_dec(&mut msg, pid as u64);
    push_str(&mut msg, " contains unsupported state value 0x");
    push_hex_padded(&mut msg, word as u64, 8);
    push_str(&mut msg, "; DLL/bridge protocol mismatch");
    msg
}

/// Decodes the three handshake words read from `DzsSpeedy.<pid>`.
pub fn decode_speedpatch_handshake(pid: u32, state_word: u32, init_result: u32, raw_hook_thread_id: u32) -> (r: Result<SpeedpatchHandshake, String>)
    ensures
        match r {
            Ok(h) => state_from_word(state_word) == Some(h.state) && h.init_result == init_result
                && h.callback_completed == (raw_hook_thread_id >= SP_HOOK_COMPLETED_BIT)
                && h.hook_thread_id == raw_hook_thread_id % SP_HOOK_COMPLETED_BIT,
            Err(e) => state_from_word(state_word) is None && e@ == unsupported_state_message(pid, state_word),
        },
{
    let callback_completed = raw_hook_thread_id & SP_HOOK_COMPLETED_BIT != 0;
    let hook_thread_id = raw_hook_thread_id & !SP_HOOK_COMPLETED_BIT;
    assert(((raw_hook_thread_id & 0x8000_0000u32) != 0) == (raw_hook_thread_id >= 0x8000_0000u32)) by (bit_vector);
    assert(raw_hook_thread_id & !0x8000_0000u32 == raw_hook_thread_id % 0x8000_0000u32) by (bit_vector);
    let state = if state_word == 0 || state_word == SP_STATE_INITIALIZING {
        SpeedpatchState::Initializing
    } else if state_word == SP_STATE_DISABLED {
        SpeedpatchState::Disabled
    } else if state_word == SP_STATE_ENABLED {
        SpeedpatchState::Enabled
    } else if state_word == SP_STATE_FAILED {
        SpeedpatchState::Failed
    } else {
        return Err(unsupported_state_error(pid, state_word));
    };
    Ok(SpeedpatchHandshake { state, init_result, hook_thread_id, callback_completed })
}

/// How far the hook callback has got, judged from one handshake reading.
#[derive(Debug, PartialEq, Eq)]
pub enum HandshakeProgress {
    Pending,
    Complete { callback_thread: u32, state: SpeedpatchState },
    Failed { callback_thread: u32, init_result: u32 },
    Invalid(String),
}

/// `HandshakeProgress` with its text seen as characters.
pub enum HandshakeVerdict {
    Pending,
    Complete { callback_thread: u32, state: SpeedpatchState },
    Failed { callback_thread: u32, init_result: u32 },
    Invalid(Seq<char>),
}

impl View for HandshakeProgress {
    type V = HandshakeVerdict;

    open spec fn view(&self) -> HandshakeVerdict {
        match self {
            HandshakeProgress::Pending => HandshakeVerdict::Pending,
            HandshakeProgress::Complete { callback_thread, state } => HandshakeVerdict::Complete {
                callback_thread: *callback_thread,
                state: *state,
            },
            HandshakeProgress::Failed { callback_thread, init_result } => HandshakeVerdict::Failed {
                callback_thread: *callback_thread,
                init_result: *init_result,
            },
            HandshakeProgress::Invalid(d) => HandshakeVerdict::Invalid(d@),
        }
    }
}

/// The callback has published everything a terminal verdict needs: its
/// completion marker, its thread and a settled initialization result.
pub open spec fn callback_metadata_ready(h: SpeedpatchHandshake) -> bool {
    h.callback_completed && h.hook_thread_id != 0 && h.init_result != ERROR_IO_PENDING
}

/// The text reported for a handshake whose fields contradict each other.
pub open spec fn inconsistent_handshake_message(h: SpeedpatchHandshake) -> Seq<char> {
    "inconsistent callback handshake: state="@ + state_name(h.state) + ", init_result=0x"@
        + hex_padded(h.init_result as nat, 8) + ", callback_thread="@ + dec(h.hook_thread_id as nat)
}

/// What a handshake reading means for the waiting bridge.
pub open spec fn handshake_verdict(h: SpeedpatchHandshake) -> HandshakeVerdict {
    if !callback_metadata_ready(h) {
        HandshakeVerdict::Pending
    } else {
        match h.state {
            SpeedpatchState::Initializing => HandshakeVerdict::Pending,
            SpeedpatchState::Enabled | SpeedpatchState::Disabled => if h.init_result == 0 {
                HandshakeVerdict::Complete { callback_thread: h.hook_thread_id, state: h.state }
            } else {
                HandshakeVerdict::Pending
            },
            SpeedpatchState::Failed => if h.init_result != 0 {
                HandshakeVerdict::Failed { callback_thread: h.hook_thread_id, init_result: h.init_result }
            } else {
                HandshakeVerdict::Invalid(inconsistent_handshake_message(h))
            },
        }
    }
}

/// Classifies one handshake reading. A terminal verdict is never given before
/// the callback has published its completion marker, its thread and a result.
pub fn classify_handshake(handshake: SpeedpatchHandshake) -> (p: HandshakeProgress)
    ensures
        p@ == handshake_verdict(handshake),
        !callback_metadata_ready(handshake) ==> p is Pending,
{
    if !handshake.callback_completed || handshake.hook_thread_id == 0 || handshake.init_result == ERROR_IO_PENDING {
        return HandshakeProgress::Pending;
    }
    match handshake.state {
        SpeedpatchState::Initializing => HandshakeProgress::Pending,
        SpeedpatchState::Enabled | SpeedpatchState::Disabled => {
            if handshake.init_result == 0 {
                HandshakeProgress::Complete { callback_thread: handshake.hook_thread_id, state: handshake.state }
            } else {
                HandshakeProgress::Pending
            }
        },
        SpeedpatchState::Failed => {
            if handshake.init_result != 0 {
                HandshakeProgress::Failed { callback_thread: handshake.hook_thread_id, init_result: handshake.init_result }
            } else {
                let mut msg = string_of("inconsistent callback handshake: state=");
                push_str(&mut msg, state_name_str(handshake.state));
                push_str(&mut msg, ", init_result=0x");
                push_hex_padded(&mut msg, handshake.init_result as u64, 8);
                push_str(&mut msg, ", callback_thread=");
                push_dec(&mut msg, handshake.hook_thread_id as u64);
                HandshakeProgress::Invalid(msg)
            }
        },
    }
}

} // verus!
