//! The bridge's line protocol: `INJECT <pid>`, `EJECT <pid>`, `ENABLE <pid>`,
//! `DISABLE <pid>`, `ISENABLED <pid>`, `STATUS <pid>`, `SETSPEED <factor>`,
//! `GETSPEED`, `PING`, `VERSION` and `SHUTDOWN`; every reply is `OK [value]`
//! or `ERROR <message>`.
use vstd::prelude::*;
use crate::bridge::ops::InjectionStatus;
use crate::bridge::logs::split_newlines;
use crate::text::{
    ascii_lower, chars_eq, chars_of, first_word, has_prefix, lower_ascii_chars, parse_u32, parse_u32_spec, push_str,
    second_word, split_first_words, starts_with, str_eq, string_of, strings_view, trim_chars, trim_ws,
    utf8_lossy, from_utf8_lossy,
};

verus! {

/// What std's `str::to_uppercase` makes of a string (Unicode case mapping).
pub uninterp spec fn unicode_uppercase(s: Seq<char>) -> Seq<char>;

/// Every character is ASCII.
pub open spec fn all_ascii(s: Seq<char>) -> bool {
    forall|i: int| 0 <= i < s.len() ==> (#[trigger] s[i] as u32) < 0x80
}

/// An ASCII character with `a`..=`z` raised.
pub open spec fn ascii_upper_char(c: char) -> char {
    if 'a' <= c && c <= 'z' { ((c as u32) - 32) as char } else { c }
}

/// `s` with `a`..=`z` raised, as Unicode upper-casing does to ASCII text.
pub open spec fn ascii_upper(s: Seq<char>) -> Seq<char> {
    s.map_values(|c: char| ascii_upper_char(c))
}

/// std `str::to_uppercase`: its result is a function of the string alone, and
/// on ASCII text it raises `a`..=`z` and keeps every other character.
#[verifier::external_body]
fn to_uppercase(s: &str) -> (r: String)
    ensures
        r@ == unicode_uppercase(s@),
        all_ascii(s@) ==> r@ == ascii_upper(s@),
{
    s.to_uppercase()
}

/// A reply of the protocol: `OK`, `OK <value>` or `ERROR <message>`.
pub open spec fn well_formed_reply(r: Seq<char>) -> bool {
    r == "OK"@ || has_prefix(r, "OK "@) || has_prefix(r, "ERROR "@)
}

/// Commands whose replies turn into an explicit error once shutdown starts,
/// so that a dying bridge never looks healthy: the health probes only.
pub open spec fn shutdown_gated(cmd: Seq<char>) -> bool {
    cmd == "GETSPEED"@ || cmd == "PING"@ || cmd == "VERSION"@
}

/// Whether `cmd` is a health probe that shutdown turns into an error.
pub fn command_is_shutdown_gated(cmd: &str) -> (b: bool)
    ensures
        b == shutdown_gated(cmd@),
{
    str_eq(cmd, "GETSPEED") || str_eq(cmd, "PING") || str_eq(cmd, "VERSION")
}

/// A command the bridge carries out.
#[derive(Debug, PartialEq, Eq)]
pub enum BridgeCommand {
    Inject(u32),
    Eject(u32),
    Enable(u32),
    Disable(u32),
    IsEnabled(u32),
    Status(u32),
    /// `SETSPEED` with its factor word, if one was given.
    SetSpeed(Option<String>),
    GetSpeed,
}

/// What to do with one request line.
#[derive(Debug, PartialEq, Eq)]
pub enum CommandPlan {
    /// Answer with this line.
    Reply(String),
    /// Carry out the command and answer with its rendered result.
    Run(BridgeCommand),
}

/// An optional string seen as characters.
pub open spec fn opt_view(s: Option<String>) -> Option<Seq<char>> {
    match s {
        Some(t) => Some(t@),
        None => None,
    }
}

/// The pid argument of a command: its second word parsed as a `u32`, or 0.
pub open spec fn pid_argument(arg: Option<Seq<char>>) -> u32 {
    match arg {
        Some(a) => match parse_u32_spec(a) {
            Some(p) => p,
            None => 0,
        },
        None => 0,
    }
}

/// The commands that take a pid.
pub enum PidCommand {
    Inject,
    Eject,
    Enable,
    Disable,
    IsEnabled,
    Status,
}

/// What a request with upper-cased first word `cmd` and second word `arg` asks for.
pub open spec fn plan_spec(cmd: Seq<char>, arg: Option<Seq<char>>, shutdown: bool) -> (Option<Seq<char>>, Option<PidCommand>) {
    if cmd == "SHUTDOWN"@ {
        (Some("OK shutting down"@), None)
    } else if shutdown && shutdown_gated(cmd) {
        (Some("ERROR bridge is shutting down"@), None)
    } else if cmd == "INJECT"@ {
        (None, Some(PidCommand::Inject))
    } else if cmd == "EJECT"@ {
        (None, Some(PidCommand::Eject))
    } else if cmd == "ENABLE"@ {
        (None, Some(PidCommand::Enable))
    } else if cmd == "DISABLE"@ {
        (None, Some(PidCommand::Disable))
    } else if cmd == "ISENABLED"@ {
        (None, Some(PidCommand::IsEnabled))
    } else if cmd == "STATUS"@ {
        (None, Some(PidCommand::Status))
    } else if cmd == "SETSPEED"@ || cmd == "GETSPEED"@ {
        (None, None)
    } else if cmd == "PING"@ || cmd == "VERSION"@ {
        (Some("OK bridge-filemap-v3"@), None)
    } else {
        (Some("ERROR unknown command"@), None)
    }
}

/// The plan matches what `plan_spec` asks for.
pub open spec fn plan_matches(plan: CommandPlan, cmd: Seq<char>, arg: Option<Seq<char>>, shutdown: bool) -> bool {
    let (reply, pid_cmd) = plan_spec(cmd, arg, shutdown);
    let pid = pid_argument(arg);
    match reply {
        Some(r) => plan matches CommandPlan::Reply(x) && x@ == r,
        None => match pid_cmd {
            Some(PidCommand::Inject) => plan == CommandPlan::Run(BridgeCommand::Inject(pid)),
            Some(PidCommand::Eject) => plan == CommandPlan::Run(BridgeCommand::Eject(pid)),
            Some(PidCommand::Enable) => plan == CommandPlan::Run(BridgeCommand::Enable(pid)),
            Some(PidCommand::Disable) => plan == CommandPlan::Run(BridgeCommand::Disable(pid)),
            Some(PidCommand::IsEnabled) => plan == CommandPlan::Run(BridgeCommand::IsEnabled(pid)),
            Some(PidCommand::Status) => plan == CommandPlan::Run(BridgeCommand::Status(pid)),
            None => if cmd == "SETSPEED"@ {
                plan matches CommandPlan::Run(BridgeCommand::SetSpeed(f)) && match f {
                    Some(w) => arg == Some(w@),
                    None => arg is None,
                }
            } else {
                plan == CommandPlan::Run(BridgeCommand::GetSpeed)
            },
        },
    }
}

/// The health probes `PING` and `VERSION` are answered at once, whatever
/// their argument: with the protocol version while the bridge runs, and with
/// the shutdown error once shutdown has started.
pub proof fn lemma_health_probe_replies(plan: CommandPlan, cmd: Seq<char>, arg: Option<Seq<char>>, shutdown: bool)
    requires
        cmd == "PING"@ || cmd == "VERSION"@,
        plan_matches(plan, cmd, arg, shutdown),
    ensures
        !shutdown ==> (plan matches CommandPlan::Reply(x) && x@ == "OK bridge-filemap-v3"@),
        shutdown ==> (plan matches CommandPlan::Reply(x) && x@ == "ERROR bridge is shutting down"@),
{
    reveal_strlit("PING");
    reveal_strlit("VERSION");
    reveal_strlit("SHUTDOWN");
    reveal_strlit("GETSPEED");
    reveal_strlit("INJECT");
    reveal_strlit("EJECT");
    reveal_strlit("ENABLE");
    reveal_strlit("DISABLE");
    reveal_strlit("ISENABLED");
    reveal_strlit("STATUS");
    reveal_strlit("SETSPEED");
    let others = seq!["SHUTDOWN"@, "GETSPEED"@, "INJECT"@, "EJECT"@, "ENABLE"@, "DISABLE"@, "ISENABLED"@, "STATUS"@, "SETSPEED"@];
    assert forall|k: int| 0 <= k < others.len() implies #[trigger] others[k] != cmd by {
        if others[k].len() == cmd.len() {
            assert(others[k][0] != cmd[0]);
        }
    }
    assert(others[0] != cmd);
    assert(others[1] != cmd);
    assert(others[2] != cmd);
    assert(others[3] != cmd);
    assert(others[4] != cmd);
    assert(others[5] != cmd);
    assert(others[6] != cmd);
    assert(others[7] != cmd);
    assert(others[8] != cmd);
}

/// The rest of the protocol: `SHUTDOWN` is always acknowledged; a request
/// that names none of the commands is refused as unknown; `INJECT`, `EJECT`,
/// `ENABLE`, `DISABLE`, `ISENABLED` and `STATUS` run for the pid in their
/// argument (0 when it is missing or not a number), also during shutdown.
pub proof fn lemma_protocol_commands(plan: CommandPlan, cmd: Seq<char>, arg: Option<Seq<char>>, shutdown: bool)
    requires
        plan_matches(plan, cmd, arg, shutdown),
    ensures
        cmd == "SHUTDOWN"@ ==> (plan matches CommandPlan::Reply(x) && x@ == "OK shutting down"@),
        !seq!["SHUTDOWN"@, "INJECT"@, "EJECT"@, "ENABLE"@, "DISABLE"@, "ISENABLED"@, "STATUS"@, "SETSPEED"@,
            "GETSPEED"@, "PING"@, "VERSION"@].contains(cmd) ==> (plan matches CommandPlan::Reply(x)
            && x@ == "ERROR unknown command"@),
        cmd == "INJECT"@ ==> plan == CommandPlan::Run(BridgeCommand::Inject(pid_argument(arg))),
        cmd == "EJECT"@ ==> plan == CommandPlan::Run(BridgeCommand::Eject(pid_argument(arg))),
        cmd == "ENABLE"@ ==> plan == CommandPlan::Run(BridgeCommand::Enable(pid_argument(arg))),
        cmd == "DISABLE"@ ==> plan == CommandPlan::Run(BridgeCommand::Disable(pid_argument(arg))),
        cmd == "ISENABLED"@ ==> plan == CommandPlan::Run(BridgeCommand::IsEnabled(pid_argument(arg))),
        cmd == "STATUS"@ ==> plan == CommandPlan::Run(BridgeCommand::Status(pid_argument(arg))),
{
    reveal_strlit("PING");
    reveal_strlit("VERSION");
    reveal_strlit("SHUTDOWN");
    reveal_strlit("GETSPEED");
    reveal_strlit("INJECT");
    reveal_strlit("EJECT");
    reveal_strlit("ENABLE");
    reveal_strlit("DISABLE");
    reveal_strlit("ISENABLED");
    reveal_strlit("STATUS");
    reveal_strlit("SETSPEED");
    let names = seq!["SHUTDOWN"@, "INJECT"@, "EJECT"@, "ENABLE"@, "DISABLE"@, "ISENABLED"@, "STATUS"@, "SETSPEED"@,
        "GETSPEED"@, "PING"@, "VERSION"@];
    if !names.contains(cmd) {
        assert(names[0] != cmd && names[1] != cmd && names[2] != cmd && names[3] != cmd && names[4] != cmd
            && names[5] != cmd && names[6] != cmd && names[7] != cmd && names[8] != cmd && names[9] != cmd
            && names[10] != cmd);
    }
    assert("SHUTDOWN"@.len() == 8 && "GETSPEED"@.len() == 8 && "SETSPEED"@.len() == 8 && "PING"@.len() == 4
        && "VERSION"@.len() == 7 && "INJECT"@.len() == 6 && "EJECT"@.len() == 5 && "ENABLE"@.len() == 6
        && "DISABLE"@.len() == 7 && "ISENABLED"@.len() == 9 && "STATUS"@.len() == 6);
    // Command words of equal length differ in their first letter.
    assert("ENABLE"@[0] != "INJECT"@[0] && "STATUS"@[0] != "INJECT"@[0] && "STATUS"@[0] != "ENABLE"@[0]
        && "DISABLE"@[0] != "VERSION"@[0]);
}

/// Plans a request from its upper-cased first word, its second word and
/// whether shutdown has started.
pub fn plan_command(cmd: &str, arg: Option<String>, shutdown_requested: bool) -> (plan: CommandPlan)
    ensures
        plan_matches(plan, cmd@, opt_view(arg), shutdown_requested),
        plan matches CommandPlan::Reply(r) ==> well_formed_reply(r@),
        (cmd@ == "PING"@ || cmd@ == "VERSION"@) && !shutdown_requested ==> (plan matches CommandPlan::Reply(x)
            && x@ == "OK bridge-filemap-v3"@),
{
    proof {
        reveal_strlit("OK ");
        reveal_strlit("ERROR ");
        reveal_strlit("OK shutting down");
        reveal_strlit("ERROR bridge is shutting down");
        reveal_strlit("OK bridge-filemap-v3");
        reveal_strlit("ERROR unknown command");
        reveal_strlit("SHUTDOWN");
        reveal_strlit("PING");
        reveal_strlit("VERSION");
        assert("SHUTDOWN"@.len() != "PING"@.len() && "SHUTDOWN"@.len() != "VERSION"@.len());
        assert("OK shutting down"@.take(3) =~= "OK "@);
        assert("ERROR bridge is shutting down"@.take(6) =~= "ERROR "@);
        assert("OK bridge-filemap-v3"@.take(3) =~= "OK "@);
        assert("ERROR unknown command"@.take(6) =~= "ERROR "@);
    }
    let ghost argv: Option<Seq<char>> = opt_view(arg);
    if str_eq(cmd, "SHUTDOWN") {
        return CommandPlan::Reply(string_of("OK shutting down"));
    }
    if shutdown_requested && command_is_shutdown_gated(cmd) {
        return CommandPlan::Reply(string_of("ERROR bridge is shutting down"));
    }
    let pid: u32 = match &arg {
        Some(a) => match parse_u32(a.as_str()) {
            Some(p) => p,
            None => 0,
        },
        None => 0,
    };
    assert(pid == pid_argument(argv));
    let plan = if str_eq(cmd, "INJECT") {
        CommandPlan::Run(BridgeCommand::Inject(pid))
    } else if str_eq(cmd, "EJECT") {
        CommandPlan::Run(BridgeCommand::Eject(pid))
    } else if str_eq(cmd, "ENABLE") {
        CommandPlan::Run(BridgeCommand::Enable(pid))
    } else if str_eq(cmd, "DISABLE") {
        CommandPlan::Run(BridgeCommand::Disable(pid))
    } else if str_eq(cmd, "ISENABLED") {
        CommandPlan::Run(BridgeCommand::IsEnabled(pid))
    } else if str_eq(cmd, "STATUS") {
        CommandPlan::Run(BridgeCommand::Status(pid))
    } else if str_eq(cmd, "SETSPEED") {
        CommandPlan::Run(BridgeCommand::SetSpeed(arg))
    } else if str_eq(cmd, "GETSPEED") {
        CommandPlan::Run(BridgeCommand::GetSpeed)
    } else if str_eq(cmd, "PING") || str_eq(cmd, "VERSION") {
        CommandPlan::Reply(string_of("OK bridge-filemap-v3"))
    } else {
        CommandPlan::Reply(string_of("ERROR unknown command"))
    };
    proof {
        if (cmd@ == "PING"@ || cmd@ == "VERSION"@) && !shutdown_requested {
            lemma_health_probe_replies(plan, cmd@, argv, shutdown_requested);
        }
    }
    plan
}

/// Plans one request line: its first word, upper-cased, names the command
/// and its second word is the argument.
pub fn handle_command(line: &str, shutdown_requested: bool) -> (plan: CommandPlan)
    ensures
        plan_matches(plan, unicode_uppercase(first_word(line@)), second_word(line@), shutdown_requested),
        all_ascii(first_word(line@)) ==> plan_matches(plan, ascii_upper(first_word(line@)), second_word(line@), shutdown_requested),
        plan matches CommandPlan::Reply(r) ==> well_formed_reply(r@),
{
    let (first, second) = split_first_words(line);
    let cmd = to_uppercase(first.as_str());
    plan_command(cmd.as_str(), second, shutdown_requested)
}

/// `OK` for success, `ERROR <message>` for failure.
pub open spec fn unit_reply_spec(r: Result<(), Seq<char>>) -> Seq<char> {
    match r {
        Ok(_) => "OK"@,
        Err(e) => "ERROR "@ + e,
    }
}

proof fn lemma_error_prefix(e: Seq<char>)
    ensures
        has_prefix("ERROR "@ + e, "ERROR "@),
{
    assert(("ERROR "@ + e).take("ERROR "@.len() as int) =~= "ERROR "@);
}

proof fn lemma_ok_prefix(v: Seq<char>)
    ensures
        has_prefix("OK "@ + v, "OK "@),
{
    assert(("OK "@ + v).take("OK "@.len() as int) =~= "OK "@);
}

/// Renders the result of `INJECT`, `EJECT`, `ENABLE` or `DISABLE`.
pub fn unit_reply(r: Result<(), String>) -> (reply: String)
    ensures
        reply@ == unit_reply_spec(crate::client::unit_outcome(r)),
        well_formed_reply(reply@),
{
    match r {
        Ok(()) => string_of("OK"),
        Err(e) => {
            let mut reply = string_of("ERROR ");
            push_str(&mut reply, e.as_str());
            proof { lemma_error_prefix(e@); }
            reply
        },
    }
}

/// Renders the result of `ISENABLED`: `OK 1`, `OK 0` or the error.
pub fn is_enabled_reply(r: Result<bool, String>) -> (reply: String)
    ensures
        match r {
            Ok(true) => reply@ == "OK 1"@,
            Ok(false) => reply@ == "OK 0"@,
            Err(e) => reply@ == "ERROR "@ + e@,
        },
        well_formed_reply(reply@),
{
    match r {
        Ok(true) => {
            let mut reply = string_of("OK ");
            push_str(&mut reply, "1");
            proof { lemma_ok_prefix("1"@); reveal_strlit("OK 1"); reveal_strlit("OK "); reveal_strlit("1"); assert(reply@ =~= "OK 1"@); }
            reply
        },
        Ok(false) => {
            let mut reply = string_of("OK ");
            push_str(&mut reply, "0");
            proof { lemma_ok_prefix("0"@); reveal_strlit("OK 0"); reveal_strlit("OK "); reveal_strlit("0"); assert(reply@ =~= "OK 0"@); }
            reply
        },
        Err(e) => {
            let mut reply = string_of("ERROR ");
            push_str(&mut reply, e.as_str());
            proof { lemma_error_prefix(e@); }
            reply
        },
    }
}

/// The reply word of each status.
pub open spec fn status_reply_spec(s: crate::bridge::ops::StatusView) -> Seq<char> {
    match s {
        crate::bridge::ops::StatusView::Enabled => "OK "@ + "ENABLED"@,
        crate::bridge::ops::StatusView::Disabled => "OK "@ + "DISABLED"@,
        crate::bridge::ops::StatusView::Initializing => "OK "@ + "INITIALIZING"@,
        crate::bridge::ops::StatusView::Failed(d) => "OK "@ + "FAILED "@ + d,
        crate::bridge::ops::StatusView::NotInjected => "OK "@ + "NOT_INJECTED"@,
    }
}

/// Renders the result of `STATUS`: `OK ENABLED`, `OK DISABLED`,
/// `OK INITIALIZING`, `OK FAILED <detail>`, `OK NOT_INJECTED` or the error.
pub fn status_reply(r: Result<InjectionStatus, String>) -> (reply: String)
    ensures
        match r {
            Ok(s) => reply@ == status_reply_spec(s@),
            Err(e) => reply@ == "ERROR "@ + e@,
        },
        well_formed_reply(reply@),
{
    match r {
        Ok(s) => {
            let mut reply = string_of("OK ");
            let ghost v = s@;
            let ghost tail: Seq<char>;
            match s {
                InjectionStatus::Enabled => {
                    push_str(&mut reply, "ENABLED");
                    proof { tail = "ENABLED"@; }
                },
                InjectionStatus::Disabled => {
                    push_str(&mut reply, "DISABLED");
                    proof { tail = "DISABLED"@; }
                },
                InjectionStatus::Initializing => {
                    push_str(&mut reply, "INITIALIZING");
                    proof { tail = "INITIALIZING"@; }
                },
                InjectionStatus::Failed(d) => {
                    push_str(&mut reply, "FAILED ");
                    push_str(&mut reply, d.as_str());
                    proof { tail = "FAILED "@ + d@; }
                },
                InjectionStatus::NotInjected => {
                    push_str(&mut reply, "NOT_INJECTED");
                    proof { tail = "NOT_INJECTED"@; }
                },
            }
            proof {
                assert(reply@ =~= "OK "@ + tail);
                lemma_ok_prefix(tail);
                assert(reply@ =~= status_reply_spec(v));
            }
            reply
        },
        Err(e) => {
            let mut reply = string_of("ERROR ");
            push_str(&mut reply, e.as_str());
            proof { lemma_error_prefix(e@); }
            reply
        },
    }
}

/// The trimmed, nonempty lines among `lines`, in order.
pub open spec fn nonempty_trimmed(lines: Seq<Seq<char>>) -> Seq<Seq<char>>
    decreases lines.len(),
{
    if lines.len() == 0 {
        seq![]
    } else {
        let prev = nonempty_trimmed(lines.drop_last());
        if trim_ws(lines.last()).len() > 0 { prev.push(trim_ws(lines.last())) } else { prev }
    }
}

/// The requests in a message read from the pipe: its lines, trimmed, without
/// the empty ones. (`str::lines` also drops a `\r` before each `\n`; every
/// line is trimmed, so splitting at `\n` alone gives the same requests.)
pub open spec fn request_lines_spec(text: Seq<char>) -> Seq<Seq<char>> {
    nonempty_trimmed(split_newlines(text))
}

/// The requests in a message read from the pipe, in order: its bytes decoded
/// as UTF-8, split at newlines, each line trimmed, empty lines dropped.
pub fn request_lines(bytes: &[u8]) -> (lines: Vec<String>)
    ensures
        strings_view(lines@) == request_lines_spec(utf8_lossy(bytes@)),
{
    let text = from_utf8_lossy(bytes);
    split_request_text(text.as_str())
}

/// The requests in a decoded message, in order.
fn split_request_text(text: &str) -> (lines: Vec<String>)
    ensures
        strings_view(lines@) == request_lines_spec(text@),
{
    let v = chars_of(text);
    let mut out: Vec<String> = Vec::new();
    let mut current: Vec<char> = Vec::new();
    let mut i: usize = 0;
    proof {
        assert(v@.take(0) =~= Seq::<char>::empty());
        assert(split_newlines(v@.take(0)).drop_last() =~= Seq::<Seq<char>>::empty());
        assert(strings_view(out@) =~= Seq::<Seq<char>>::empty());
    }
    while i < v.len()
        invariant
            i <= v.len(),
            v@ == text@,
            split_newlines(v@.take(i as int)).len() >= 1,
            current@ == split_newlines(v@.take(i as int)).last(),
            strings_view(out@) == nonempty_trimmed(split_newlines(v@.take(i as int)).drop_last()),
        decreases v.len() - i,
    {
        let ghost segs = split_newlines(v@.take(i as int));
        proof {
            assert(v@.take(i as int + 1).drop_last() =~= v@.take(i as int));
            assert(v@.take(i as int + 1).last() == v@[i as int]);
        }
        let c = v[i];
        if c == '\n' {
            let t = trim_chars(current.as_slice());
            let ghost before = out@;
            if chars_of(t.as_str()).len() > 0 {
                out.push(t);
                proof { assert(strings_view(out@) =~= strings_view(before).push(trim_ws(segs.last()))); }
            }
            current = Vec::new();
            proof {
                let next = segs.push(seq![]);
                assert(next.drop_last() =~= segs);
                assert(next.last() =~= Seq::<char>::empty());
                assert(segs.drop_last().push(segs.last()) =~= segs);
            }
        } else {
            current.push(c);
            proof {
                let next = segs.update(segs.len() - 1, segs.last().push(c));
                assert(next.drop_last() =~= segs.drop_last());
            }
        }
        i = i + 1;
    }
    proof {
        assert(v@.take(v@.len() as int) =~= v@);
    }
    let ghost segs = split_newlines(v@);
    let t = trim_chars(current.as_slice());
    let ghost before = out@;
    if chars_of(t.as_str()).len() > 0 {
        out.push(t);
        proof { assert(strings_view(out@) =~= strings_view(before).push(trim_ws(segs.last()))); }
    }
    proof {
        assert(segs.drop_last().push(segs.last()) =~= segs);
    }
    out
}

/// Whether a request line is `SHUTDOWN`, ignoring ASCII case.
pub fn is_shutdown_request(line: &str) -> (b: bool)
    ensures
        b == (ascii_lower(line@) == "shutdown"@),
{
    let lowered = lower_ascii_chars(chars_of(line).as_slice());
    let expected = chars_of("shutdown");
    chars_eq(lowered.as_slice(), expected.as_slice())
}

/// Whether a probe of the pipe was answered by a live bridge: the reply's
/// bytes, decoded as UTF-8 and trimmed, start with `OK`.
pub fn pipe_reply_alive(reply: &[u8]) -> (b: bool)
    ensures
        b == has_prefix(trim_ws(utf8_lossy(reply@)), "OK"@),
{
    let text = from_utf8_lossy(reply);
    let t = trim_chars(chars_of(text.as_str()).as_slice());
    let tv = chars_of(t.as_str());
    let ok = chars_of("OK");
    starts_with(tv.as_slice(), ok.as_slice())
}

/// How long a new bridge waits to take over the pipe from an old one.
pub const TAKEOVER_WAIT_SECS: u64 = 12;
/// The pause between two takeover attempts, in milliseconds.
pub const TAKEOVER_POLL_MS: u64 = 100;

/// What a bridge that found another instance owning the pipe does next.
#[derive(Debug, Clone, Copy, PartialEq, Eq, Structural)]
pub enum Takeover {
    /// The other bridge answers: leave it the pipe and exit successfully.
    Defer,
    /// This bridge now owns the singleton: serve the pipe.
    Serve,
    /// The other bridge neither answers nor leaves: exit with an error.
    GiveUp,
    /// Look again after a pause.
    Wait,
}

/// One look of the takeover: a live other bridge is left alone; once the old
/// owner is gone this bridge takes over; past the deadline it gives up.
pub fn takeover_step(other_alive: bool, singleton_acquired: bool, deadline_passed: bool) -> (t: Takeover)
    ensures
        t == (if other_alive {
            Takeover::Defer
        } else if singleton_acquired {
            Takeover::Serve
        } else if deadline_passed {
            Takeover::GiveUp
        } else {
            Takeover::Wait
        }),
{
    if other_alive {
        Takeover::Defer
    } else if singleton_acquired {
        Takeover::Serve
    } else if deadline_passed {
        Takeover::GiveUp
    } else {
        Takeover::Wait
    }
}

} // verus!
