//! What the bridge remembers per target process: which targets it keeps
//! (so shutdown can disable them), which injections are still running, and
//! the last injection failure of each target.
use vstd::prelude::*;
use std::collections::{HashMap, HashSet};
use vstd::std_specs::iter::IteratorSpec;

verus! {

broadcast use vstd::std_specs::hash::group_hash_axioms;

/// The injection step still running for a target.
#[derive(Debug, Clone, Copy, PartialEq, Eq, Structural)]
pub enum InjectionStage {
    Loading,
    Initializing,
}

/// Per-target bookkeeping of the bridge.
pub struct InjectionRegistry {
    targets: HashSet<u32>,
    stages: HashMap<u32, InjectionStage>,
    failures: HashMap<u32, String>,
}

/// The registry's contents as sets and maps.
pub struct RegistryView {
    pub targets: Set<u32>,
    pub stages: Map<u32, InjectionStage>,
    pub failures: Map<u32, Seq<char>>,
}

impl View for InjectionRegistry {
    type V = RegistryView;

    closed spec fn view(&self) -> RegistryView {
        RegistryView {
            targets: self.targets@,
            stages: self.stages@,
            failures: self.failures@.map_values(|s: String| s@),
        }
    }
}

impl InjectionRegistry {
    /// An empty registry, as after a bridge start.
    pub fn new() -> (r: Self)
        ensures
            r@.targets == Set::<u32>::empty(),
            r@.stages == Map::<u32, InjectionStage>::empty(),
            r@.failures == Map::<u32, Seq<char>>::empty(),
    {
        let r = InjectionRegistry { targets: HashSet::new(), stages: HashMap::new(), failures: HashMap::new() };
        proof {
            assert(r@.failures =~= Map::<u32, Seq<char>>::empty());
        }
        r
    }

    /// Remembers `pid` as a target to disable on shutdown.
    pub fn track_target(&mut self, pid: u32)
        ensures
            final(self)@.targets == old(self)@.targets.insert(pid),
            final(self)@.stages == old(self)@.stages,
            final(self)@.failures == old(self)@.failures,
    {
        self.targets.insert(pid);
    }

    /// Forgets `pid` as a shutdown target.
    pub fn untrack_target(&mut self, pid: u32)
        ensures
            final(self)@.targets == old(self)@.targets.remove(pid),
            final(self)@.stages == old(self)@.stages,
            final(self)@.failures == old(self)@.failures,
    {
        self.targets.remove(&pid);
    }

    /// Whether `pid` is a remembered target.
    pub fn is_target(&self, pid: u32) -> (b: bool)
        ensures
            b == self@.targets.contains(pid),
    {
        self.targets.contains(&pid)
    }

    /// Every remembered target, each once, in no particular order.
    pub fn target_pids(&self) -> (pids: Vec<u32>)
        ensures
            pids@.to_set() == self@.targets,
            pids@.no_duplicates(),
    {
        let mut pids: Vec<u32> = Vec::new();
        for pid in it: self.targets.iter()
            invariant
                it.seq() == vstd::std_specs::hash::spec_hash_keys_iter(&self.targets).remaining(),
                pids@ == it.seq().take(it.index() as int).map_values(|p: &u32| *p),
        {
            pids.push(*pid);
            proof {
                assert(pids@ =~= it.seq().take(it.index() as int + 1).map_values(|p: &u32| *p));
            }
        }
        proof {
            let ghost all = vstd::std_specs::hash::spec_hash_keys_iter(&self.targets).remaining();
            assert(pids@ =~= all.map_values(|p: &u32| *p));
            assert(all.unref() =~= all.map_values(|p: &u32| *p));
        }
        pids
    }

    /// Records the running step of `pid`'s injection.
    pub fn set_injection_stage(&mut self, pid: u32, stage: InjectionStage)
        ensures
            final(self)@.stages == old(self)@.stages.insert(pid, stage),
            final(self)@.targets == old(self)@.targets,
            final(self)@.failures == old(self)@.failures,
    {
        self.stages.insert(pid, stage);
    }

    /// The running step of `pid`'s injection, if any.
    pub fn injection_stage(&self, pid: u32) -> (s: Option<InjectionStage>)
        ensures
            s == (if self@.stages.contains_key(pid) { Some(self@.stages[pid]) } else { None::<InjectionStage> }),
    {
        match self.stages.get(&pid) {
            Some(s) => Some(*s),
            None => None,
        }
    }

    /// Forgets the running step of `pid`'s injection.
    pub fn clear_injection_stage(&mut self, pid: u32)
        ensures
            final(self)@.stages == old(self)@.stages.remove(pid),
            final(self)@.targets == old(self)@.targets,
            final(self)@.failures == old(self)@.failures,
    {
        self.stages.remove(&pid);
    }

    /// Records that `pid`'s injection failed; its running step ends with it.
    pub fn record_injection_failure(&mut self, pid: u32, detail: String)
        ensures
            final(self)@.stages == old(self)@.stages.remove(pid),
            final(self)@.failures == old(self)@.failures.insert(pid, detail@),
            final(self)@.targets == old(self)@.targets,
    {
        self.clear_injection_stage(pid);
        let ghost before = self.failures@;
        self.failures.insert(pid, detail);
        proof {
            assert(self@.failures =~= old(self)@.failures.insert(pid, detail@));
        }
    }

    /// The last recorded injection failure of `pid`, if any.
    pub fn injection_failure(&self, pid: u32) -> (f: Option<String>)
        ensures
            match f {
                Some(d) => self@.failures.contains_key(pid) && d@ == self@.failures[pid],
                None => !self@.failures.contains_key(pid),
            },
    {
        match self.failures.get(&pid) {
            Some(d) => Some(d.clone()),
            None => None,
        }
    }

    /// Forgets the recorded injection failure of `pid`.
    pub fn clear_injection_failure(&mut self, pid: u32)
        ensures
            final(self)@.failures == old(self)@.failures.remove(pid),
            final(self)@.stages == old(self)@.stages,
            final(self)@.targets == old(self)@.targets,
    {
        self.failures.remove(&pid);
        proof {
            assert(self@.failures =~= old(self)@.failures.remove(pid));
        }
    }
}

} // verus!
