//! Reading speedpatch's own log (`dzsspeedy-speedpatch-<pid>.log`, UTF-16LE)
//! for the native error behind a failed injection.
use vstd::prelude::*;
use crate::text::{
    chars_of, contains_chars, contains_seq, dec, from_utf16_lossy, push_dec, push_str, string_of,
    trim_chars, trim_ws, utf16_lossy, zero_pad,
};

verus! {

/// Little-endian 16-bit units of a byte string of even length.
pub open spec fn le_units(b: Seq<u8>) -> Seq<u16> {
    Seq::new(b.len() / 2, |i: int| (b[2 * i] + b[2 * i + 1] * 256) as u16)
}

/// The log text written after the first `initial_len` bytes: both ends are
/// rounded to whole UTF-16 units (the start up, the end down).
pub open spec fn log_tail_spec(bytes: Seq<u8>, initial_len: u64) -> Option<Seq<char>> {
    if initial_len > usize::MAX {
        None
    } else {
        let s0: int = if initial_len < bytes.len() { initial_len as int } else { bytes.len() as int };
        let start = s0 + s0 % 2;
        let end = bytes.len() - bytes.len() % 2;
        if start > end { None } else { Some(utf16_lossy(le_units(bytes.subrange(start, end)))) }
    }
}

/// Decodes what the DLL logged after `initial_len` bytes of its log file.
pub fn speedpatch_log_tail(bytes: &[u8], initial_len: u64) -> (r: Option<String>)
    requires
        bytes@.len() < usize::MAX,
    ensures
        match r {
            Some(t) => log_tail_spec(bytes@, initial_len) == Some(t@),
            None => log_tail_spec(bytes@, initial_len) is None,
        },
{
    if initial_len > usize::MAX as u64 {
        return None;
    }
    let len = bytes.len();
    let s0: usize = if (initial_len as usize) < len { initial_len as usize } else { len };
    let start = s0 + s0 % 2;
    let end = len - len % 2;
    if start > end {
        return None;
    }
    let ghost b = bytes@.subrange(start as int, end as int);
    let mut units: Vec<u16> = Vec::new();
    let mut k: usize = start;
    while k < end
        invariant
            start <= k <= end <= len == bytes@.len(),
            (k - start) % 2 == 0,
            (end - start) % 2 == 0,
            b == bytes@.subrange(start as int, end as int),
            units@.len() == (k - start) / 2,
            forall|j: int| 0 <= j < units@.len() ==> units@[j] == (b[2 * j] + b[2 * j + 1] * 256) as u16,
        decreases end - k,
    {
        let lo = bytes[k] as u16;
        let hi = bytes[k + 1] as u16;
        proof {
            let j = units@.len() as int;
            assert(2 * j == k - start);
            assert(b[2 * j] == bytes@[k as int]);
            assert(b[2 * j + 1] == bytes@[k + 1]);
        }
        units.push(lo + hi * 256);
        k = k + 2;
    }
    proof {
        assert(units@ =~= le_units(b));
    }
    Some(from_utf16_lossy(units.as_slice()))
}

/// `s` split at every `\n` (the last piece may be empty).
pub open spec fn split_newlines(s: Seq<char>) -> Seq<Seq<char>>
    decreases s.len(),
{
    if s.len() == 0 {
        seq![seq![]]
    } else {
        let prev = split_newlines(s.drop_last());
        if s.last() == '\n' {
            prev.push(seq![])
        } else {
            prev.update(prev.len() - 1, prev.last().push(s.last()))
        }
    }
}

proof fn lemma_split_nonempty(s: Seq<char>)
    ensures
        split_newlines(s).len() >= 1,
    decreases s.len(),
{
    if s.len() > 0 {
        lemma_split_nonempty(s.drop_last());
    }
}

/// A log line reporting a failed hook installation.
pub open spec fn is_install_failure(line: Seq<char>) -> bool {
    contains_seq(line, "SP_Install:"@) && contains_seq(line, "FAILED"@)
}

/// The last line among `lines` that reports a failed hook installation.
pub open spec fn last_install_failure(lines: Seq<Seq<char>>) -> Option<Seq<char>>
    decreases lines.len(),
{
    if lines.len() == 0 {
        None
    } else if is_install_failure(lines.last()) {
        Some(lines.last())
    } else {
        last_install_failure(lines.drop_last())
    }
}

/// The last install-failure line of a log text, trimmed. (`str::lines`
/// also drops a `\r` before each `\n`; the chosen line is trimmed, so
/// splitting at `\n` alone gives the same answer.)
pub open spec fn latest_install_failure_spec(log: Seq<char>) -> Option<Seq<char>> {
    match last_install_failure(split_newlines(log)) {
        Some(l) => if trim_ws(l).len() > 0 { Some(trim_ws(l)) } else { None },
        None => None,
    }
}

/// The most recent `SP_Install: ... FAILED` line of the DLL's log text.
pub fn latest_speedpatch_install_failure(log: &str) -> (r: Option<String>)
    ensures
        match r {
            Some(l) => latest_install_failure_spec(log@) == Some(l@),
            None => latest_install_failure_spec(log@) is None,
        },
{
    let v = chars_of(log);
    let install = chars_of("SP_Install:");
    let failed = chars_of("FAILED");
    let mut best: Option<Vec<char>> = None;
    let mut current: Vec<char> = Vec::new();
    let mut i: usize = 0;
    while i < v.len()
        invariant
            i <= v.len(),
            v@ == log@,
            install@ == "SP_Install:"@,
            failed@ == "FAILED"@,
            split_newlines(v@.take(i as int)).len() >= 1,
            current@ == split_newlines(v@.take(i as int)).last(),
            match best {
                Some(b) => last_install_failure(split_newlines(v@.take(i as int)).drop_last()) == Some(b@),
                None => last_install_failure(split_newlines(v@.take(i as int)).drop_last()) is None,
            },
        decreases v.len() - i,
    {
        let ghost segs = split_newlines(v@.take(i as int));
        proof {
            assert(v@.take(i as int + 1).drop_last() =~= v@.take(i as int));
            assert(v@.take(i as int + 1).last() == v@[i as int]);
        }
        let c = v[i];
        if c == '\n' {
            let hit = contains_chars(current.as_slice(), install.as_slice()) && contains_chars(current.as_slice(), failed.as_slice());
            if hit {
                best = Some(current);
            }
            current = Vec::new();
            proof {
                let next = segs.push(seq![]);
                assert(next.drop_last() =~= segs);
                assert(next.last() =~= Seq::<char>::empty());
            }
        } else {
            current.push(c);
            proof {
                let next = segs.update(segs.len() - 1, segs.last().push(c));
                assert(next.drop_last() =~= segs.drop_last());
            }
        }
        i = i + 1;
    }
    proof {
        assert(v@.take(v@.len() as int) =~= v@);
    }
    let hit = contains_chars(current.as_slice(), install.as_slice()) && contains_chars(current.as_slice(), failed.as_slice());
    let chosen: Option<Vec<char>> = if hit { Some(current) } else { best };
    match chosen {
        Some(line) => {
            let t = trim_chars(line.as_slice());
            let tv = chars_of(t.as_str());
            if tv.len() > 0 { Some(t) } else { None }
        },
        None => None,
    }
}

/// The file name of speedpatch's log for a target.
pub open spec fn log_file_name_spec(pid: u32) -> Seq<char> {
    "dzsspeedy-speedpatch-"@ + dec(pid as nat) + ".log"@
}

/// The file name of speedpatch's log for a target (in the temporary directory).
pub fn speedpatch_log_file_name(pid: u32) -> (n: String)
    ensures
        n@ == log_file_name_spec(pid),
{
    let mut n = string_of("dzsspeedy-speedpatch-");
    push_dec(&mut n, pid as u64);
    push_str(&mut n, ".log");
    n
}

/// ` Native DLL error: <line>` when the log names one, else nothing.
pub open spec fn native_detail_spec(native_failure: Option<Seq<char>>) -> Seq<char> {
    match native_failure {
        Some(l) => " Native DLL error: "@ + l,
        None => Seq::<char>::empty(),
    }
}

fn push_native_detail(msg: &mut String, native_failure: Option<String>)
    ensures
        final(msg)@ == old(msg)@ + native_detail_spec(match native_failure { Some(l) => Some(l@), None => None }),
{
    match native_failure {
        Some(l) => {
            push_str(msg, " Native DLL error: ");
            push_str(msg, l.as_str());
        },
        None => {
            proof { assert(msg@ =~= old(msg)@ + Seq::<char>::empty()); }
        },
    }
}

/// The failure when the hook callback signaled completion but no terminal
/// handshake can be read; it names the DLL's native error if its log has one.
pub fn completed_without_terminal_handshake_detail(
    pid: u32,
    callback_thread: u32,
    native_failure: Option<String>,
    log_path: &str,
) -> (d: String)
    ensures
        d@ == "SP_HookProc signaled completion for pid="@ + dec(pid as nat) + ", callback_thread="@
            + dec(callback_thread as nat) + ", but the terminal handshake is unavailable."@
            + native_detail_spec(match native_failure { Some(l) => Some(l@), None => None })
            + " DLL log: "@ + log_path@,
{
    let mut d = string_of("SP_HookProc signaled completion for pid=");
    push_dec(&mut d, pid as u64);
    push_str(&mut d, ", callback_thread=");
    push_dec(&mut d, callback_thread as u64);
    push_str(&mut d, ", but the terminal handshake is unavailable.");
    push_native_detail(&mut d, native_failure);
    push_str(&mut d, " DLL log: ");
    push_str(&mut d, log_path);
    d
}

/// `n` in decimal, zero-padded to three digits.
pub open spec fn millis_text(n: u32) -> Seq<char> {
    zero_pad(dec(n as nat), 3)
}

proof fn lemma_dec_len(n: nat)
    ensures
        n < 10 ==> dec(n).len() == 1,
        10 <= n < 100 ==> dec(n).len() == 2,
        100 <= n ==> dec(n).len() >= 3,
    decreases n,
{
    if n >= 10 {
        lemma_dec_len(n / 10);
    }
}

/// The time stamp of the bridge's debug log: seconds since the Unix epoch,
/// a dot and the milliseconds in three digits.
pub fn log_timestamp(secs: u64, millis: u32) -> (t: String)
    ensures
        t@ == dec(secs as nat) + "."@ + millis_text(millis),
{
    let mut t = String::new();
    push_dec(&mut t, secs);
    push_str(&mut t, ".");
    let ghost head = t@;
    proof {
        lemma_dec_len(millis as nat);
        reveal_strlit("00");
        reveal_strlit("0");
    }
    if millis < 10 {
        push_str(&mut t, "00");
    } else if millis < 100 {
        push_str(&mut t, "0");
    }
    push_dec(&mut t, millis as u64);
    proof {
        if millis < 10 {
            assert(millis_text(millis) =~= "00"@ + dec(millis as nat));
        } else if millis < 100 {
            assert(millis_text(millis) =~= "0"@ + dec(millis as nat));
        } else {
            assert(millis_text(millis) =~= dec(millis as nat));
        }
        assert(t@ =~= head + millis_text(millis));
    }
    t
}

} // verus!
