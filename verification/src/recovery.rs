//! How the desktop side recognizes a bridge that is shutting down: what the
//! bridge answers once shutdown has started, read by the client.
use vstd::prelude::*;
use crate::bridge::atomics::shutdown_refusal;
use crate::bridge::protocol::{plan_spec, shutdown_gated, unit_reply_spec};
use crate::client::{needs_repair_spec, response_outcome, shutdown_detected_spec};
use crate::text::{contains_seq, has_prefix};

verus! {

/// An operation that a shutting-down bridge refuses to start fails on the
/// client with an error that calls for repairing the bridge (and one retry).
pub proof fn lemma_refused_operation_calls_for_repair(cmd: Seq<char>)
    ensures
        response_outcome(cmd, unit_reply_spec(Err(shutdown_refusal()))) matches Err(e) && needs_repair_spec(e),
{
    reveal_strlit("ERROR ");
    reveal_strlit("OK");
    reveal_strlit("bridge shutdown is in progress; operation was not started");
    reveal_strlit("shutdown is in progress");
    let reply = unit_reply_spec(Err(shutdown_refusal()));
    assert(reply.take(6) =~= "ERROR "@);
    assert(reply.len() != "OK"@.len());
    assert(reply.skip(6) =~= shutdown_refusal());
    let tail = shutdown_refusal();
    let n = "shutdown is in progress"@;
    assert(tail.subrange(7, 7 + n.len() as int) =~= n);
    let head = cmd + ": "@;
    let e = head + tail;
    let i: int = head.len() as int + 7;
    assert(e.subrange(i, i + n.len() as int) =~= tail.subrange(7, 7 + n.len() as int));
    assert(contains_seq(e, n));
    assert(shutdown_detected_spec(e));
}

/// Once shutdown has started, the bridge answers a health probe (`GETSPEED`,
/// `PING`, `VERSION`) with an error: the client's health check, which wants
/// `OK`, fails, and a request that got this answer calls for repairing the
/// bridge.
pub proof fn lemma_dying_bridge_fails_health_probe(probe: Seq<char>, arg: Option<Seq<char>>, cmd: Seq<char>)
    requires
        shutdown_gated(probe),
    ensures
        plan_spec(probe, arg, true).0 matches Some(r) && !has_prefix(r, "OK"@)
            && (response_outcome(cmd, r) matches Err(e) && needs_repair_spec(e)),
{
    reveal_strlit("GETSPEED");
    reveal_strlit("SHUTDOWN");
    reveal_strlit("PING");
    reveal_strlit("VERSION");
    reveal_strlit("OK");
    reveal_strlit("ERROR ");
    reveal_strlit("ERROR bridge is shutting down");
    reveal_strlit("is shutting down");
    assert("GETSPEED"@[0] != "SHUTDOWN"@[0]);
    assert("PING"@[0] != "SHUTDOWN"@[0]);
    assert("VERSION"@[0] != "SHUTDOWN"@[0]);
    assert(probe != "SHUTDOWN"@);
    let r = "ERROR bridge is shutting down"@;
    assert(plan_spec(probe, arg, true).0 == Some(r));
    assert(r.take(2) != "OK"@) by {
        assert(r.take(2)[0] != "OK"@[0]);
    }
    assert(r.take(6) =~= "ERROR "@);
    assert(r != "OK"@) by {
        assert(r.len() != "OK"@.len());
    }
    reveal_strlit("bridge is shutting down");
    let tail = r.skip(6);
    assert(tail =~= "bridge is shutting down"@);
    let n = "is shutting down"@;
    assert(tail.subrange(7, 7 + n.len() as int) =~= n);
    let head = cmd + ": "@;
    let e = head + tail;
    let i: int = head.len() as int + 7;
    assert(e.subrange(i, i + n.len() as int) =~= tail.subrange(7, 7 + n.len() as int));
    assert(contains_seq(e, n));
    assert(shutdown_detected_spec(e));
}

} // verus!
