//! Choosing the target threads that receive the `WH_GETMESSAGE` hook.
use vstd::prelude::*;

verus! {

/// A thread that owns a top-level window of the target process.
#[derive(Debug, Clone, Copy, PartialEq, Eq, Structural)]
pub struct HookThreadCandidate {
    pub thread_id: u32,
    pub visible: bool,
}

/// `ids` with zeros dropped and every id kept only at its first occurrence.
pub open spec fn dedup_nonzero(ids: Seq<u32>) -> Seq<u32>
    decreases ids.len(),
{
    if ids.len() == 0 {
        seq![]
    } else {
        let prev = dedup_nonzero(ids.drop_last());
        let id = ids.last();
        if id != 0 && !prev.contains(id) { prev.push(id) } else { prev }
    }
}

/// The thread ids of the candidates whose visibility is `visible`, in order.
pub open spec fn window_ids(candidates: Seq<HookThreadCandidate>, visible: bool) -> Seq<u32> {
    candidates.filter(|c: HookThreadCandidate| c.visible == visible).map_values(|c: HookThreadCandidate| c.thread_id)
}

/// Visible window threads first, then hidden window threads, then the remaining
/// process threads; zero ids and repeats dropped.
pub open spec fn hook_thread_order(candidates: Seq<HookThreadCandidate>, process_threads: Seq<u32>) -> Seq<u32> {
    dedup_nonzero(window_ids(candidates, true) + window_ids(candidates, false) + process_threads)
}

/// What `dedup_nonzero` keeps: no zero, no repeat, and every nonzero id of the input.
pub proof fn lemma_dedup_nonzero(ids: Seq<u32>)
    ensures
        dedup_nonzero(ids).no_duplicates(),
        !dedup_nonzero(ids).contains(0),
        forall|x: u32| dedup_nonzero(ids).contains(x) <==> (x != 0 && ids.contains(x)),
    decreases ids.len(),
{
    if ids.len() > 0 {
        let prefix = ids.drop_last();
        lemma_dedup_nonzero(prefix);
        assert forall|x: u32| ids.contains(x) <==> (prefix.contains(x) || x == ids.last()) by {
            if ids.contains(x) {
                let i = choose|i: int| 0 <= i < ids.len() && ids[i] == x;
                if i < ids.len() - 1 {
                    assert(prefix[i] == x);
                }
            }
            if prefix.contains(x) {
                let i = choose|i: int| 0 <= i < prefix.len() && prefix[i] == x;
                assert(ids[i] == x);
            }
            if x == ids.last() {
                assert(ids[ids.len() - 1] == x);
            }
        }
        let prev = dedup_nonzero(prefix);
        let id = ids.last();
        assert forall|x: u32| prev.push(id).contains(x) <==> (prev.contains(x) || x == id) by {
            if prev.push(id).contains(x) {
                let i = choose|i: int| 0 <= i < prev.push(id).len() && prev.push(id)[i] == x;
                if i < prev.len() { assert(prev[i] == x); }
            }
            if prev.contains(x) {
                let i = choose|i: int| 0 <= i < prev.len() && prev[i] == x;
                assert(prev.push(id)[i] == x);
            }
            if x == id {
                assert(prev.push(id)[prev.len() as int] == x);
            }
        }
    }
}

/// `x` occurs in `s` before the first occurrence of `y`.
pub open spec fn occurs_before(s: Seq<u32>, x: u32, y: u32) -> bool {
    exists|k: int| 0 <= k < s.len() && s[k] == x && forall|m: int| 0 <= m <= k ==> #[trigger] s[m] != y
}

/// The tier of a hook thread: 0 for a thread owning a visible window, 1 for one
/// owning only hidden windows, 2 for any other thread of the process.
pub open spec fn hook_tier(candidates: Seq<HookThreadCandidate>, id: u32) -> int {
    if window_ids(candidates, true).contains(id) {
        0
    } else if window_ids(candidates, false).contains(id) {
        1
    } else {
        2
    }
}

/// Where the ids of a tier come from.
pub open spec fn tier_source(candidates: Seq<HookThreadCandidate>, process_threads: Seq<u32>, tier: int) -> Seq<u32> {
    if tier == 0 {
        window_ids(candidates, true)
    } else if tier == 1 {
        window_ids(candidates, false)
    } else {
        process_threads
    }
}

/// `dedup_nonzero` keeps the order of first occurrences.
pub proof fn lemma_dedup_keeps_first_order(ids: Seq<u32>)
    ensures
        forall|i: int, j: int| 0 <= i < j < dedup_nonzero(ids).len() ==>
            occurs_before(ids, #[trigger] dedup_nonzero(ids)[i], #[trigger] dedup_nonzero(ids)[j]),
    decreases ids.len(),
{
    if ids.len() > 0 {
        let prefix = ids.drop_last();
        lemma_dedup_keeps_first_order(prefix);
        lemma_dedup_nonzero(prefix);
        let d = dedup_nonzero(ids);
        let prev = dedup_nonzero(prefix);
        assert forall|i: int, j: int| 0 <= i < j < d.len() implies occurs_before(ids, #[trigger] d[i], #[trigger] d[j]) by {
            if j < prev.len() {
                assert(d[i] == prev[i] && d[j] == prev[j]);
                assert(occurs_before(prefix, prev[i], prev[j]));
                let k = choose|k: int| 0 <= k < prefix.len() && prefix[k] == prev[i]
                    && forall|m: int| 0 <= m <= k ==> #[trigger] prefix[m] != prev[j];
                assert forall|m: int| 0 <= m <= k implies #[trigger] ids[m] != d[j] by {
                    assert(ids[m] == prefix[m]);
                }
                assert(ids[k] == d[i]);
            } else {
                let id = ids.last();
                assert(d == prev.push(id));
                assert(d[j] == id);
                assert(prev.contains(prev[i]));
                assert(prefix.contains(d[i]));
                let k = choose|k: int| 0 <= k < prefix.len() && prefix[k] == d[i];
                assert(!prefix.contains(id));
                assert forall|m: int| 0 <= m <= k implies #[trigger] ids[m] != d[j] by {
                    assert(ids[m] == prefix[m]);
                    assert(prefix.contains(prefix[m]));
                }
                assert(ids[k] == d[i]);
            }
        }
    }
}

/// The hook threads come tier by tier (visible window threads, then threads
/// with only hidden windows, then the other process threads), and within a
/// tier in the order of their first occurrence in that tier's source.
pub proof fn lemma_hook_threads_by_tier(candidates: Seq<HookThreadCandidate>, process_threads: Seq<u32>)
    ensures
        forall|i: int, j: int| 0 <= i < j < hook_thread_order(candidates, process_threads).len() ==> {
            let x = #[trigger] hook_thread_order(candidates, process_threads)[i];
            let y = #[trigger] hook_thread_order(candidates, process_threads)[j];
            &&& hook_tier(candidates, x) <= hook_tier(candidates, y)
            &&& hook_tier(candidates, x) == hook_tier(candidates, y) ==> occurs_before(
                tier_source(candidates, process_threads, hook_tier(candidates, x)), x, y)
        },
{
    let a = window_ids(candidates, true);
    let b = window_ids(candidates, false);
    let p = process_threads;
    let s = a + b + p;
    let r = hook_thread_order(candidates, process_threads);
    lemma_dedup_keeps_first_order(s);
    assert forall|i: int, j: int| 0 <= i < j < r.len() implies {
        let x = #[trigger] r[i];
        let y = #[trigger] r[j];
        &&& hook_tier(candidates, x) <= hook_tier(candidates, y)
        &&& hook_tier(candidates, x) == hook_tier(candidates, y) ==> occurs_before(
            tier_source(candidates, process_threads, hook_tier(candidates, x)), x, y)
    } by {
        let x = r[i];
        let y = r[j];
        assert(occurs_before(s, x, y));
        let k = choose|k: int| 0 <= k < s.len() && s[k] == x && forall|m: int| 0 <= m <= k ==> #[trigger] s[m] != y;
        // Where x sits in the concatenation tells its tier.
        if k < a.len() {
            assert(a[k] == s[k]);
            assert(a.contains(x));
        } else if k < a.len() + b.len() {
            assert(b[k - a.len()] == s[k]);
            assert(b.contains(x));
            if a.contains(x) {
                let q = choose|q: int| 0 <= q < a.len() && a[q] == x;
                assert(s[q] == x);
            }
        } else {
            assert(p[k - a.len() - b.len()] == s[k]);
            if a.contains(x) {
                let q = choose|q: int| 0 <= q < a.len() && a[q] == x;
                assert(s[q] == x);
            }
            if b.contains(x) {
                let q = choose|q: int| 0 <= q < b.len() && b[q] == x;
                assert(s[a.len() + q] == x);
            }
        }
        // y does not occur up to k, so it sits later in the concatenation.
        if a.contains(y) {
            let q = choose|q: int| 0 <= q < a.len() && a[q] == y;
            assert(s[q] == y);
            assert(q > k);
            assert forall|m: int| 0 <= m <= k implies #[trigger] a[m] != y by {
                assert(s[m] == a[m]);
            }
            assert(a[k] == x);
        } else if b.contains(y) {
            let q = choose|q: int| 0 <= q < b.len() && b[q] == y;
            assert(s[a.len() + q] == y);
            assert(a.len() + q > k);
            if k >= a.len() {
                assert forall|m: int| 0 <= m <= k - a.len() implies #[trigger] b[m] != y by {
                    assert(s[a.len() + m] == b[m]);
                }
                assert(b[k - a.len()] == x);
            }
        } else {
            if k >= a.len() + b.len() {
                assert forall|m: int| 0 <= m <= k - a.len() - b.len() implies #[trigger] p[m] != y by {
                    assert(s[a.len() + b.len() + m] == p[m]);
                }
                assert(p[k - a.len() - b.len()] == x);
            }
        }
    }
}

fn push_unique_nonzero(ordered: &mut Vec<u32>, id: u32)
    ensures
        final(ordered)@ == (if id != 0 && !old(ordered)@.contains(id) { old(ordered)@.push(id) } else { old(ordered)@ }),
{
    if id == 0 {
        return;
    }
    let mut i: usize = 0;
    while i < ordered.len()
        invariant
            i <= ordered.len(),
            forall|k: int| 0 <= k < i ==> ordered@[k] != id,
        decreases ordered.len() - i,
    {
        if ordered[i] == id {
            return;
        }
        i = i + 1;
    }
    ordered.push(id);
}

/// The window-owning thread ids with the given visibility, in order.
fn collect_window_ids(candidates: &[HookThreadCandidate], visible: bool) -> (ids: Vec<u32>)
    ensures
        ids@ == window_ids(candidates@, visible),
{
    let mut ids: Vec<u32> = Vec::new();
    let mut i: usize = 0;
    while i < candidates.len()
        invariant
            i <= candidates.len(),
            ids@ == window_ids(candidates@.take(i as int), visible),
        decreases candidates.len() - i,
    {
        let c = candidates[i];
        proof {
            let pred = |c: HookThreadCandidate| c.visible == visible;
            assert(candidates@.take(i as int + 1).drop_last() =~= candidates@.take(i as int));
            reveal_with_fuel(Seq::filter, 1);
        }
        if c.visible == visible {
            ids.push(c.thread_id);
        }
        i = i + 1;
    }
    proof {
        assert(candidates@.take(candidates@.len() as int) =~= candidates@);
    }
    ids
}

/// Orders the hook targets: visible window threads, then hidden window threads,
/// then the other threads of the process, skipping zero ids and repeats.
pub fn ordered_hook_threads(window_candidates: &[HookThreadCandidate], process_threads: &[u32]) -> (ordered: Vec<u32>)
    ensures
        ordered@ == hook_thread_order(window_candidates@, process_threads@),
        ordered@.no_duplicates(),
        !ordered@.contains(0),
        forall|x: u32| #[trigger] ordered@.contains(x) <==> (x != 0 && (
            window_ids(window_candidates@, true).contains(x) || window_ids(window_candidates@, false).contains(x)
            || process_threads@.contains(x))),
        forall|i: int, j: int| 0 <= i < j < ordered@.len() ==> {
            let x = #[trigger] ordered@[i];
            let y = #[trigger] ordered@[j];
            &&& hook_tier(window_candidates@, x) <= hook_tier(window_candidates@, y)
            &&& hook_tier(window_candidates@, x) == hook_tier(window_candidates@, y) ==> occurs_before(
                tier_source(window_candidates@, process_threads@, hook_tier(window_candidates@, x)), x, y)
        },
{
    let mut all = collect_window_ids(window_candidates, true);
    let mut hidden = collect_window_ids(window_candidates, false);
    all.append(&mut hidden);
    let mut i: usize = 0;
    while i < process_threads.len()
        invariant
            i <= process_threads.len(),
            all@ == window_ids(window_candidates@, true) + window_ids(window_candidates@, false) + process_threads@.take(i as int),
        decreases process_threads.len() - i,
    {
        all.push(process_threads[i]);
        i = i + 1;
        proof {
            assert(all@ =~= window_ids(window_candidates@, true) + window_ids(window_candidates@, false) + process_threads@.take(i as int));
        }
    }
    proof {
        assert(process_threads@.take(process_threads@.len() as int) =~= process_threads@);
    }
    let mut ordered: Vec<u32> = Vec::new();
    let mut j: usize = 0;
    while j < all.len()
        invariant
            j <= all.len(),
            ordered@ == dedup_nonzero(all@.take(j as int)),
        decreases all.len() - j,
    {
        proof {
            assert(all@.take(j as int + 1).drop_last() =~= all@.take(j as int));
        }
        push_unique_nonzero(&mut ordered, all[j]);
        j = j + 1;
    }
    proof {
        assert(all@.take(all@.len() as int) =~= all@);
        let a = window_ids(window_candidates@, true);
        let b = window_ids(window_candidates@, false);
        let p = process_threads@;
        lemma_dedup_nonzero(all@);
        lemma_hook_threads_by_tier(window_candidates@, process_threads@);
        assert forall|x: u32| (a + b + p).contains(x) <==> (a.contains(x) || b.contains(x) || p.contains(x)) by {
            if (a + b + p).contains(x) {
                let k = choose|k: int| 0 <= k < (a + b + p).len() && (a + b + p)[k] == x;
                if k < a.len() { assert(a[k] == x); }
                else if k < a.len() + b.len() { assert(b[k - a.len()] == x); }
                else { assert(p[k - a.len() - b.len()] == x); }
            }
            if a.contains(x) {
                let k = choose|k: int| 0 <= k < a.len() && a[k] == x;
                assert((a + b + p)[k] == x);
            }
            if b.contains(x) {
                let k = choose|k: int| 0 <= k < b.len() && b[k] == x;
                assert((a + b + p)[a.len() + k] == x);
            }
            if p.contains(x) {
                let k = choose|k: int| 0 <= k < p.len() && p[k] == x;
                assert((a + b + p)[a.len() + b.len() + k] == x);
            }
        }
    }
    ordered
}

} // verus!
