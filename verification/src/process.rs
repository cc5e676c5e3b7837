//! The process list shown by the GUI: the rows built from a process
//! snapshot, the per-process cache of slow-to-read details, module lists and
//! process icons.
use vstd::prelude::*;
use std::collections::HashMap;
use crate::bridge::modules::module_text_spec;
use crate::bridge::modules::module_text;
use crate::text::{chars_of, from_utf16_lossy, utf16_lossy};

verus! {

broadcast use vstd::std_specs::hash::group_hash_axioms;

/// One row of the process list.
#[derive(Debug, Clone)]
pub struct ProcessInfo {
    pub pid: u32,
    pub name: String,
    pub arch: String,
    pub window_title: Option<String>,
    pub memory_kb: u64,
    pub exe_path: Option<String>,
    pub admin: bool,
}

/// One module of a process.
#[derive(Debug, Clone)]
pub struct ModuleInfo {
    pub name: String,
    pub path: String,
    pub base_address: u64,
    pub size: u32,
}

/// An optional string seen as characters.
pub open spec fn opt_chars(s: Option<String>) -> Option<Seq<char>> {
    match s {
        Some(t) => Some(t@),
        None => None,
    }
}

fn clone_opt(s: &Option<String>) -> (r: Option<String>)
    ensures
        opt_chars(r) == opt_chars(*s),
{
    match s {
        Some(t) => Some(t.clone()),
        None => None,
    }
}

/// The slow-to-read details of a process, as cached.
pub struct CachedInfo {
    pub arch: String,
    pub window_title: Option<String>,
    pub memory_kb: u64,
    pub exe_path: Option<String>,
    pub admin: bool,
}

/// `CachedInfo` seen as characters.
pub struct CachedView {
    pub arch: Seq<char>,
    pub window_title: Option<Seq<char>>,
    pub memory_kb: u64,
    pub exe_path: Option<Seq<char>>,
    pub admin: bool,
}

impl View for CachedInfo {
    type V = CachedView;

    open spec fn view(&self) -> CachedView {
        CachedView {
            arch: self.arch@,
            window_title: opt_chars(self.window_title),
            memory_kb: self.memory_kb,
            exe_path: opt_chars(self.exe_path),
            admin: self.admin,
        }
    }
}

impl CachedInfo {
    fn duplicate(&self) -> (r: CachedInfo)
        ensures
            r@ == self@,
    {
        CachedInfo {
            arch: self.arch.clone(),
            window_title: clone_opt(&self.window_title),
            memory_kb: self.memory_kb,
            exe_path: clone_opt(&self.exe_path),
            admin: self.admin,
        }
    }
}

/// The details of a row, seen as characters.
pub open spec fn row_details(p: ProcessInfo) -> CachedView {
    CachedView {
        arch: p.arch@,
        window_title: opt_chars(p.window_title),
        memory_kb: p.memory_kb,
        exe_path: opt_chars(p.exe_path),
        admin: p.admin,
    }
}

/// The per-process caches: slow details and extracted icons, keyed by pid.
pub struct ProcessCache {
    info: HashMap<u32, CachedInfo>,
    icons: HashMap<u32, Option<String>>,
}

/// The caches' contents.
pub struct ProcessCacheView {
    pub info: Map<u32, CachedView>,
    pub icons: Map<u32, Option<Seq<char>>>,
}

impl View for ProcessCache {
    type V = ProcessCacheView;

    closed spec fn view(&self) -> ProcessCacheView {
        ProcessCacheView {
            info: self.info@.map_values(|c: CachedInfo| c@),
            icons: self.icons@.map_values(|i: Option<String>| opt_chars(i)),
        }
    }
}

impl ProcessCache {
    /// Empty caches.
    pub fn new() -> (c: Self)
        ensures
            c@.info == Map::<u32, CachedView>::empty(),
            c@.icons == Map::<u32, Option<Seq<char>>>::empty(),
    {
        let c = ProcessCache { info: HashMap::new(), icons: HashMap::new() };
        proof {
            assert(c@.info =~= Map::<u32, CachedView>::empty());
            assert(c@.icons =~= Map::<u32, Option<Seq<char>>>::empty());
        }
        c
    }

    /// The cached details of `pid`, if any.
    pub fn cache_get(&self, pid: u32) -> (r: Option<CachedInfo>)
        ensures
            match r {
                Some(c) => self@.info.contains_key(pid) && c@ == self@.info[pid],
                None => !self@.info.contains_key(pid),
            },
    {
        match self.info.get(&pid) {
            Some(c) => Some(c.duplicate()),
            None => None,
        }
    }

    /// Caches the details of `pid`, replacing any earlier ones.
    pub fn cache_set(&mut self, pid: u32, arch: String, window_title: Option<String>, memory_kb: u64, exe_path: Option<String>, admin: bool)
        ensures
            final(self)@.info == old(self)@.info.insert(pid, CachedView {
                arch: arch@,
                window_title: opt_chars(window_title),
                memory_kb,
                exe_path: opt_chars(exe_path),
                admin,
            }),
            final(self)@.icons == old(self)@.icons,
    {
        let entry = CachedInfo { arch, window_title, memory_kb, exe_path, admin };
        let ghost v = entry@;
        self.info.insert(pid, entry);
        proof {
            assert(self@.info =~= old(self)@.info.insert(pid, v));
        }
    }

    /// The cached icon of `pid`: `None` when none is cached, `Some(None)`
    /// when extraction failed before.
    pub fn icon_get(&self, pid: u32) -> (r: Option<Option<String>>)
        ensures
            match r {
                Some(i) => self@.icons.contains_key(pid) && opt_chars(i) == self@.icons[pid],
                None => !self@.icons.contains_key(pid),
            },
    {
        match self.icons.get(&pid) {
            Some(i) => Some(clone_opt(i)),
            None => None,
        }
    }

    /// Caches the icon of `pid` (also a failed extraction, so it is not retried).
    pub fn icon_set(&mut self, pid: u32, icon: Option<String>)
        ensures
            final(self)@.icons == old(self)@.icons.insert(pid, opt_chars(icon)),
            final(self)@.info == old(self)@.info,
    {
        let ghost v = opt_chars(icon);
        self.icons.insert(pid, icon);
        proof {
            assert(self@.icons =~= old(self)@.icons.insert(pid, v));
        }
    }
}

/// One entry of a module snapshot of a process.
pub struct ModuleEntry {
    pub name: Vec<u16>,
    pub path: Vec<u16>,
    pub base_address: u64,
    pub size: u32,
}

/// `ModuleInfo` seen as characters.
pub struct ModuleInfoView {
    pub name: Seq<char>,
    pub path: Seq<char>,
    pub base_address: u64,
    pub size: u32,
}

impl View for ModuleInfo {
    type V = ModuleInfoView;

    open spec fn view(&self) -> ModuleInfoView {
        ModuleInfoView { name: self.name@, path: self.path@, base_address: self.base_address, size: self.size }
    }
}

/// The module row of a snapshot entry.
pub open spec fn module_row(e: ModuleEntry) -> ModuleInfoView {
    ModuleInfoView {
        name: module_text_spec(e.name@),
        path: module_text_spec(e.path@),
        base_address: e.base_address,
        size: e.size,
    }
}

/// The entry has a name.
pub open spec fn module_named(e: ModuleEntry) -> bool {
    module_text_spec(e.name@).len() > 0
}

/// The module list of a process from its module snapshot: every entry with a
/// name, in snapshot order, its texts stripped of their NUL padding.
pub fn enumerate_modules(entries: &[ModuleEntry]) -> (modules: Vec<ModuleInfo>)
    ensures
        modules@.map_values(|m: ModuleInfo| m@) == entries@.filter(|e: ModuleEntry| module_named(e)).map_values(|e: ModuleEntry| module_row(e)),
{
    let mut modules: Vec<ModuleInfo> = Vec::new();
    let mut i: usize = 0;
    while i < entries.len()
        invariant
            i <= entries.len(),
            modules@.map_values(|m: ModuleInfo| m@) == entries@.take(i as int).filter(|e: ModuleEntry| module_named(e)).map_values(|e: ModuleEntry| module_row(e)),
        decreases entries.len() - i,
    {
        let e = &entries[i];
        let name = module_text(e.name.as_slice());
        let path = module_text(e.path.as_slice());
        let named = chars_of(name.as_str()).len() > 0;
        let ghost before = modules@.map_values(|m: ModuleInfo| m@);
        let ghost pred = |e: ModuleEntry| module_named(e);
        proof {
            assert(entries@.take(i as int + 1).drop_last() =~= entries@.take(i as int));
            assert(entries@.take(i as int + 1).last() == entries@[i as int]);
            reveal_with_fuel(Seq::filter, 1);
            assert(*e == entries@[i as int]);
            assert(named == module_named(entries@[i as int]));
            if named {
                assert(entries@.take(i as int + 1).filter(pred) == entries@.take(i as int).filter(pred).push(entries@[i as int]));
            } else {
                assert(entries@.take(i as int + 1).filter(pred) == entries@.take(i as int).filter(pred));
            }
        }
        if named {
            let m = ModuleInfo { name, path, base_address: e.base_address, size: e.size };
            assert(m@ == module_row(entries@[i as int]));
            modules.push(m);
            proof {
                assert(modules@.map_values(|m: ModuleInfo| m@) =~= before.push(module_row(entries@[i as int])));
                assert(entries@.take(i as int).filter(pred).push(entries@[i as int]).map_values(|e: ModuleEntry| module_row(e))
                    =~= entries@.take(i as int).filter(pred).map_values(|e: ModuleEntry| module_row(e)).push(module_row(entries@[i as int])));
            }
        }
        i = i + 1;
    }
    proof {
        assert(entries@.take(entries@.len() as int) =~= entries@);
    }
    modules
}

/// One entry of a process snapshot: the pid and the NUL-padded executable name.
pub struct ProcessEntry {
    pub pid: u32,
    pub exe_file: Vec<u16>,
}

/// The entry has a name.
pub open spec fn process_named(e: ProcessEntry) -> bool {
    module_text_spec(e.exe_file@).len() > 0
}

/// The entries that become rows, in snapshot order.
pub open spec fn named_processes(entries: Seq<ProcessEntry>) -> Seq<ProcessEntry> {
    entries.filter(|e: ProcessEntry| process_named(e))
}

/// Whether some entry has the pid.
pub open spec fn lists_pid(entries: Seq<ProcessEntry>, pid: u32) -> bool {
    exists|k: int| 0 <= k < entries.len() && #[trigger] entries[k].pid == pid
}

/// What the fast listing reads of a process it has not seen before.
pub struct QuickProbe {
    pub arch: String,
    pub exe_path: Option<String>,
    pub admin: bool,
}

/// The cached details of a first quick look: no title and no memory figure yet.
pub open spec fn quick_details(q: QuickProbe) -> CachedView {
    CachedView { arch: q.arch@, window_title: None, memory_kb: 0, exe_path: opt_chars(q.exe_path), admin: q.admin }
}

/// Everything the full listing reads of a process.
pub struct FullProbe {
    pub arch: String,
    pub window_title: Option<String>,
    pub memory_kb: u64,
    pub exe_path: Option<String>,
    pub admin: bool,
}

/// The cached details of a full look.
pub open spec fn full_details(q: FullProbe) -> CachedView {
    CachedView {
        arch: q.arch@,
        window_title: opt_chars(q.window_title),
        memory_kb: q.memory_kb,
        exe_path: opt_chars(q.exe_path),
        admin: q.admin,
    }
}

impl ProcessCache {
    /// One row of the fast listing: cached details when there are some, else
    /// a quick look at the process, which is cached.
    fn fast_row<F: Fn(u32) -> QuickProbe>(&mut self, pid: u32, name: String, probe: &F) -> (row: ProcessInfo)
        requires
            forall|p: u32| call_requires(*probe, (p,)),
        ensures
            row.pid == pid,
            row.name@ == name@,
            final(self)@.icons == old(self)@.icons,
            old(self)@.info.contains_key(pid) ==> final(self)@.info == old(self)@.info
                && row_details(row) == old(self)@.info[pid],
            !old(self)@.info.contains_key(pid) ==> exists|q: QuickProbe| call_ensures(*probe, (pid,), q)
                && final(self)@.info == old(self)@.info.insert(pid, quick_details(q))
                && row_details(row) == quick_details(q),
    {
        match self.cache_get(pid) {
            Some(cached) => ProcessInfo {
                pid,
                name,
                arch: cached.arch,
                window_title: cached.window_title,
                memory_kb: cached.memory_kb,
                exe_path: cached.exe_path,
                admin: cached.admin,
            },
            None => {
                let q = (*probe)(pid);
                let ghost observed = q;
                let arch = q.arch.clone();
                let exe_path = clone_opt(&q.exe_path);
                self.cache_set(pid, q.arch, None, 0, q.exe_path, q.admin);
                let row = ProcessInfo { pid, name, arch, window_title: None, memory_kb: 0, exe_path, admin: q.admin };
                assert(call_ensures(*probe, (pid,), observed) && row_details(row) == quick_details(observed));
                row
            },
        }
    }

    /// The process list from a snapshot, fast: each named process gets the
    /// cached details, or a quick look (architecture, executable path,
    /// elevation) that is cached for later.
    pub fn enumerate_processes_fast<F: Fn(u32) -> QuickProbe>(&mut self, entries: &[ProcessEntry], probe: F) -> (rows: Vec<ProcessInfo>)
        requires
            forall|p: u32| call_requires(probe, (p,)),
        ensures
            rows@.len() == named_processes(entries@).len(),
            forall|j: int| 0 <= j < rows@.len() ==> {
                &&& #[trigger] rows@[j].pid == named_processes(entries@)[j].pid
                &&& rows@[j].name@ == module_text_spec(named_processes(entries@)[j].exe_file@)
                &&& final(self)@.info.contains_key(rows@[j].pid)
                &&& row_details(rows@[j]) == final(self)@.info[rows@[j].pid]
            },
            final(self)@.icons == old(self)@.icons,
            forall|p: u32| #[trigger] old(self)@.info.contains_key(p) ==> final(self)@.info.contains_key(p)
                && final(self)@.info[p] == old(self)@.info[p],
            forall|p: u32| #[trigger] final(self)@.info.contains_key(p) && !old(self)@.info.contains_key(p) ==>
                lists_pid(named_processes(entries@), p)
                && exists|q: QuickProbe| call_ensures(probe, (p,), q) && final(self)@.info[p] == quick_details(q),
    {
        let ghost start = self@;
        let ghost pred = |e: ProcessEntry| process_named(e);
        let mut rows: Vec<ProcessInfo> = Vec::new();
        let mut i: usize = 0;
        while i < entries.len()
            invariant
                i <= entries.len(),
                forall|p: u32| call_requires(probe, (p,)),
                pred == (|e: ProcessEntry| process_named(e)),
                rows@.len() == entries@.take(i as int).filter(pred).len(),
                forall|j: int| 0 <= j < rows@.len() ==> {
                    &&& #[trigger] rows@[j].pid == entries@.take(i as int).filter(pred)[j].pid
                    &&& rows@[j].name@ == module_text_spec(entries@.take(i as int).filter(pred)[j].exe_file@)
                    &&& self@.info.contains_key(rows@[j].pid)
                    &&& row_details(rows@[j]) == self@.info[rows@[j].pid]
                },
                self@.icons == start.icons,
                forall|p: u32| #[trigger] start.info.contains_key(p) ==> self@.info.contains_key(p)
                    && self@.info[p] == start.info[p],
                forall|p: u32| #[trigger] self@.info.contains_key(p) && !start.info.contains_key(p) ==>
                    lists_pid(entries@.take(i as int).filter(pred), p)
                    && exists|q: QuickProbe| call_ensures(probe, (p,), q) && self@.info[p] == quick_details(q),
            decreases entries.len() - i,
        {
            let e = &entries[i];
            let name = module_text(e.exe_file.as_slice());
            let named = chars_of(name.as_str()).len() > 0;
            let ghost prefix = entries@.take(i as int).filter(pred);
            proof {
                assert(entries@.take(i as int + 1).drop_last() =~= entries@.take(i as int));
                assert(entries@.take(i as int + 1).last() == entries@[i as int]);
                reveal_with_fuel(Seq::filter, 1);
                assert(*e == entries@[i as int]);
                assert(named == process_named(entries@[i as int]));
                if named {
                    assert(entries@.take(i as int + 1).filter(pred) == prefix.push(entries@[i as int]));
                } else {
                    assert(entries@.take(i as int + 1).filter(pred) == prefix);
                }
            }
            if named {
                let ghost before = self@;
                let row = self.fast_row(e.pid, name, &probe);
                proof {
                    let next = prefix.push(entries@[i as int]);
                    assert forall|p: u32| lists_pid(prefix, p) implies lists_pid(next, p) by {
                        let k = choose|k: int| 0 <= k < prefix.len() && #[trigger] prefix[k].pid == p;
                        assert(next[k].pid == p);
                    }
                    assert(next[prefix.len() as int].pid == e.pid);
                    assert(lists_pid(next, e.pid));
                }
                rows.push(row);
            }
            i = i + 1;
        }
        proof {
            assert(entries@.take(entries@.len() as int) =~= entries@);
        }
        rows
    }
}

/// Some row has the pid.
pub open spec fn rows_list_pid(rows: Seq<ProcessInfo>, pid: u32) -> bool {
    exists|k: int| 0 <= k < rows.len() && #[trigger] rows[k].pid == pid
}

/// The details cached for `pid` are those of its last row.
pub open spec fn cached_from_last_row(rows: Seq<ProcessInfo>, info: Map<u32, CachedView>, pid: u32) -> bool {
    exists|j: int| 0 <= j < rows.len() && #[trigger] rows[j].pid == pid && info[pid] == row_details(rows[j])
        && forall|k: int| j < k < rows.len() ==> rows[k].pid != pid
}

impl ProcessCache {
    /// The process list from a snapshot, in full: every named process is
    /// looked at (architecture, window title, memory, executable path,
    /// elevation) and its details cached; the caches then keep only the
    /// processes of this snapshot.
    pub fn enumerate_processes_full<F: Fn(u32) -> FullProbe>(&mut self, entries: &[ProcessEntry], probe: F) -> (rows: Vec<ProcessInfo>)
        requires
            forall|p: u32| call_requires(probe, (p,)),
        ensures
            rows@.len() == named_processes(entries@).len(),
            forall|j: int| 0 <= j < rows@.len() ==> {
                &&& #[trigger] rows@[j].pid == named_processes(entries@)[j].pid
                &&& rows@[j].name@ == module_text_spec(named_processes(entries@)[j].exe_file@)
                &&& exists|q: FullProbe| call_ensures(probe, (rows@[j].pid,), q) && row_details(rows@[j]) == full_details(q)
            },
            forall|p: u32| #[trigger] final(self)@.info.contains_key(p) <==> rows_list_pid(rows@, p),
            forall|p: u32| #[trigger] final(self)@.info.contains_key(p) ==> cached_from_last_row(rows@, final(self)@.info, p),
            forall|p: u32| #[trigger] final(self)@.icons.contains_key(p) <==> (rows_list_pid(rows@, p) && old(self)@.icons.contains_key(p)),
            forall|p: u32| #[trigger] final(self)@.icons.contains_key(p) ==> final(self)@.icons[p] == old(self)@.icons[p],
    {
        let ghost pred = |e: ProcessEntry| process_named(e);
        let mut rows: Vec<ProcessInfo> = Vec::new();
        let mut info: HashMap<u32, CachedInfo> = HashMap::new();
        let mut i: usize = 0;
        while i < entries.len()
            invariant
                i <= entries.len(),
                forall|p: u32| call_requires(probe, (p,)),
                pred == (|e: ProcessEntry| process_named(e)),
                rows@.len() == entries@.take(i as int).filter(pred).len(),
                forall|j: int| 0 <= j < rows@.len() ==> {
                    &&& #[trigger] rows@[j].pid == entries@.take(i as int).filter(pred)[j].pid
                    &&& rows@[j].name@ == module_text_spec(entries@.take(i as int).filter(pred)[j].exe_file@)
                    &&& exists|q: FullProbe| call_ensures(probe, (rows@[j].pid,), q) && row_details(rows@[j]) == full_details(q)
                },
                forall|p: u32| #[trigger] info@.contains_key(p) <==> rows_list_pid(rows@, p),
                forall|p: u32| #[trigger] info@.contains_key(p) ==>
                    cached_from_last_row(rows@, info@.map_values(|c: CachedInfo| c@), p),
            decreases entries.len() - i,
        {
            let e = &entries[i];
            let name = module_text(e.exe_file.as_slice());
            let named = chars_of(name.as_str()).len() > 0;
            let ghost prefix = entries@.take(i as int).filter(pred);
            proof {
                assert(entries@.take(i as int + 1).drop_last() =~= entries@.take(i as int));
                assert(entries@.take(i as int + 1).last() == entries@[i as int]);
                reveal_with_fuel(Seq::filter, 1);
                assert(*e == entries@[i as int]);
                assert(named == process_named(entries@[i as int]));
                if named {
                    assert(entries@.take(i as int + 1).filter(pred) == prefix.push(entries@[i as int]));
                } else {
                    assert(entries@.take(i as int + 1).filter(pred) == prefix);
                }
            }
            if named {
                let pid = e.pid;
                let q = probe(pid);
                let ghost observed = q;
                let row = ProcessInfo {
                    pid,
                    name,
                    arch: q.arch.clone(),
                    window_title: clone_opt(&q.window_title),
                    memory_kb: q.memory_kb,
                    exe_path: clone_opt(&q.exe_path),
                    admin: q.admin,
                };
                let cached = CachedInfo {
                    arch: q.arch,
                    window_title: q.window_title,
                    memory_kb: q.memory_kb,
                    exe_path: q.exe_path,
                    admin: q.admin,
                };
                assert(cached@ == row_details(row));
                assert(call_ensures(probe, (pid,), observed) && row_details(row) == full_details(observed));
                let ghost old_rows = rows@;
                let ghost old_info = info@.map_values(|c: CachedInfo| c@);
                info.insert(pid, cached);
                rows.push(row);
                proof {
                    let new_info = info@.map_values(|c: CachedInfo| c@);
                    assert(new_info =~= old_info.insert(pid, row_details(row)));
                    assert(rows@[old_rows.len() as int].pid == pid);
                    assert forall|p: u32| #[trigger] info@.contains_key(p) <==> rows_list_pid(rows@, p) by {
                        if rows_list_pid(rows@, p) && p != pid {
                            let k = choose|k: int| 0 <= k < rows@.len() && #[trigger] rows@[k].pid == p;
                            assert(k < old_rows.len());
                            assert(old_rows[k].pid == p);
                        }
                        if p != pid && rows_list_pid(old_rows, p) {
                            let k = choose|k: int| 0 <= k < old_rows.len() && #[trigger] old_rows[k].pid == p;
                            assert(rows@[k].pid == p);
                        }
                    }
                    assert forall|p: u32| #[trigger] info@.contains_key(p) implies cached_from_last_row(rows@, new_info, p) by {
                        if p == pid {
                            assert(rows@[old_rows.len() as int].pid == p);
                        } else {
                            assert(old_info.contains_key(p));
                            let j = choose|j: int| 0 <= j < old_rows.len() && #[trigger] old_rows[j].pid == p
                                && old_info[p] == row_details(old_rows[j])
                                && forall|k: int| j < k < old_rows.len() ==> old_rows[k].pid != p;
                            assert(rows@[j].pid == p);
                        }
                    }
                    assert forall|j: int| 0 <= j < rows@.len() implies {
                        &&& #[trigger] rows@[j].pid == entries@.take(i as int + 1).filter(pred)[j].pid
                        &&& rows@[j].name@ == module_text_spec(entries@.take(i as int + 1).filter(pred)[j].exe_file@)
                        &&& exists|q: FullProbe| call_ensures(probe, (rows@[j].pid,), q) && row_details(rows@[j]) == full_details(q)
                    } by {
                        if j < old_rows.len() {
                            assert(rows@[j] == old_rows[j]);
                        }
                    }
                }
            }
            i = i + 1;
        }
        proof {
            assert(entries@.take(entries@.len() as int) =~= entries@);
        }
        let ghost old_icons = self@.icons;
        let mut icons: HashMap<u32, Option<String>> = HashMap::new();
        let mut k: usize = 0;
        while k < rows.len()
            invariant
                k <= rows.len(),
                old_icons == self@.icons,
                forall|p: u32| #[trigger] icons@.contains_key(p) <==> (rows_list_pid(rows@.take(k as int), p) && old_icons.contains_key(p)),
                forall|p: u32| #[trigger] icons@.contains_key(p) ==> opt_chars(icons@[p]) == old_icons[p],
            decreases rows.len() - k,
        {
            let pid = rows[k].pid;
            let ghost before = icons@;
            match self.icon_get(pid) {
                Some(icon) => {
                    icons.insert(pid, icon);
                },
                None => {},
            }
            proof {
                assert(rows@.take(k as int + 1)[k as int].pid == pid);
                assert forall|p: u32| #[trigger] icons@.contains_key(p) <==> (rows_list_pid(rows@.take(k as int + 1), p) && old_icons.contains_key(p)) by {
                    if rows_list_pid(rows@.take(k as int + 1), p) && p != pid {
                        let j = choose|j: int| 0 <= j < k + 1 && #[trigger] rows@.take(k as int + 1)[j].pid == p;
                        assert(rows@.take(k as int)[j].pid == p);
                    }
                    if rows_list_pid(rows@.take(k as int), p) {
                        let j = choose|j: int| 0 <= j < k && #[trigger] rows@.take(k as int)[j].pid == p;
                        assert(rows@.take(k as int + 1)[j].pid == p);
                    }
                }
            }
            k = k + 1;
        }
        proof {
            assert(rows@.take(rows@.len() as int) =~= rows@);
        }
        self.info = info;
        self.icons = icons;
        rows
    }

    /// The icon of a process as a data URI: the cached one when there is one
    /// (also a cached failure); otherwise the icon extracted from its
    /// executable (the cached path, else one queried now), which is cached.
    pub fn get_process_icon<Q: Fn(u32) -> Option<String>, X: Fn(&str) -> Option<String>>(
        &mut self,
        pid: u32,
        query_exe_path: Q,
        extract_icon: X,
    ) -> (icon: Option<String>)
        requires
            call_requires(query_exe_path, (pid,)),
            forall|p: &str| call_requires(extract_icon, (p,)),
        ensures
            final(self)@.info == old(self)@.info,
            old(self)@.icons.contains_key(pid) ==> opt_chars(icon) == old(self)@.icons[pid]
                && final(self)@.icons == old(self)@.icons,
            !old(self)@.icons.contains_key(pid) ==> if old(self)@.info.contains_key(pid) && old(self)@.info[pid].exe_path is Some {
                exists|p: &str| p@ == old(self)@.info[pid].exe_path->0 && call_ensures(extract_icon, (p,), icon)
                    && final(self)@.icons == old(self)@.icons.insert(pid, opt_chars(icon))
            } else {
                exists|q: Option<String>| call_ensures(query_exe_path, (pid,), q) && match q {
                    None => icon is None && final(self)@.icons == old(self)@.icons,
                    Some(path) => exists|p: &str| p@ == path@ && call_ensures(extract_icon, (p,), icon)
                        && final(self)@.icons == old(self)@.icons.insert(pid, opt_chars(icon)),
                }
            },
            final(self)@.icons.contains_key(pid) ==> final(self)@.icons[pid] == opt_chars(icon),
    {
        match self.icon_get(pid) {
            Some(cached) => return cached,
            None => {},
        }
        let cached_path: Option<String> = match self.cache_get(pid) {
            Some(c) => c.exe_path,
            None => None,
        };
        let exe_path: Option<String> = match cached_path {
            Some(p) => Some(p),
            None => {
                let q = query_exe_path(pid);
                assert(call_ensures(query_exe_path, (pid,), q));
                q
            },
        };
        match exe_path {
            None => None,
            Some(path) => {
                let path_str = path.as_str();
                let icon = extract_icon(path_str);
                assert(call_ensures(extract_icon, (path_str,), icon) && path_str@ == path@);
                self.icon_set(pid, clone_opt(&icon));
                icon
            },
        }
    }
}

/// The architecture label of a process: `x86` for a WOW64 process, else `x64`
/// (also when the process could not be asked).
pub fn arch_label(is_wow64: Option<bool>) -> (label: &'static str)
    ensures
        label@ == (if is_wow64 == Some(true) { "x86"@ } else { "x64"@ }),
{
    match is_wow64 {
        Some(true) => "x86",
        _ => "x64",
    }
}

/// A working set in bytes, in whole kibibytes.
pub fn working_set_kb(bytes: u64) -> (kb: u64)
    ensures
        kb == bytes / 1024,
{
    bytes / 1024
}

/// One top-level window as `EnumWindows` reports it.
pub struct WindowEntry {
    /// The process that owns the window.
    pub owner_pid: u32,
    pub visible: bool,
    /// The window's title text (UTF-16).
    pub text: Vec<u16>,
}

/// Whether a window gives a process its title: owned by it, visible, titled.
pub open spec fn titles_process(w: WindowEntry, pid: u32) -> bool {
    w.owner_pid == pid && w.visible && w.text@.len() > 0
}

/// The title of a process: that of the last window, in enumeration order,
/// that is owned by it, visible and titled.
pub open spec fn window_title_spec(pid: u32, windows: Seq<WindowEntry>) -> Option<Seq<char>>
    decreases windows.len(),
{
    if windows.len() == 0 {
        None
    } else if titles_process(windows.last(), pid) {
        Some(utf16_lossy(windows.last().text@))
    } else {
        window_title_spec(pid, windows.drop_last())
    }
}

/// The title of a process comes from a window that it owns, that is visible
/// and whose text is not empty, and from the last such window in enumeration
/// order; a process without such a window has no title. A hidden window, or
/// one owned by another process, never gives the title.
pub proof fn lemma_title_from_last_visible_window(pid: u32, windows: Seq<WindowEntry>)
    ensures
        window_title_spec(pid, windows) is None <==> !(exists|i: int| 0 <= i < windows.len()
            && (#[trigger] windows[i]).owner_pid == pid && windows[i].visible && windows[i].text@.len() > 0),
        window_title_spec(pid, windows) matches Some(t) ==> exists|i: int| 0 <= i < windows.len()
            && (#[trigger] windows[i]).owner_pid == pid && windows[i].visible && windows[i].text@.len() > 0
            && t == utf16_lossy(windows[i].text@)
            && forall|j: int| i < j < windows.len() ==> !((#[trigger] windows[j]).owner_pid == pid
                && windows[j].visible && windows[j].text@.len() > 0),
    decreases windows.len(),
{
    if windows.len() > 0 {
        let prefix = windows.drop_last();
        lemma_title_from_last_visible_window(pid, prefix);
        let n = windows.len() - 1;
        let last = windows[n];
        assert(windows.last() == last);
        if last.owner_pid == pid && last.visible && last.text@.len() > 0 {
            assert(windows[n].owner_pid == pid);
        } else {
            assert forall|i: int| 0 <= i < prefix.len() implies #[trigger] prefix[i] == windows[i] by {}
            if exists|i: int| 0 <= i < windows.len()
                && (#[trigger] windows[i]).owner_pid == pid && windows[i].visible && windows[i].text@.len() > 0 {
                let i = choose|i: int| 0 <= i < windows.len()
                    && (#[trigger] windows[i]).owner_pid == pid && windows[i].visible && windows[i].text@.len() > 0;
                assert(i < n);
                assert(prefix[i] == windows[i]);
            }
            if window_title_spec(pid, prefix) is Some {
                let t = window_title_spec(pid, prefix)->0;
                let i = choose|i: int| 0 <= i < prefix.len()
                    && (#[trigger] prefix[i]).owner_pid == pid && prefix[i].visible && prefix[i].text@.len() > 0
                    && t == utf16_lossy(prefix[i].text@)
                    && forall|j: int| i < j < prefix.len() ==> !((#[trigger] prefix[j]).owner_pid == pid
                        && prefix[j].visible && prefix[j].text@.len() > 0);
                assert(windows[i] == prefix[i]);
                assert forall|j: int| i < j < windows.len() implies !((#[trigger] windows[j]).owner_pid == pid
                    && windows[j].visible && windows[j].text@.len() > 0) by {
                    if j < n {
                        assert(prefix[j] == windows[j]);
                    }
                }
            }
        }
    }
}

/// The title of a process from the enumerated windows.
pub fn window_title(pid: u32, windows: &[WindowEntry]) -> (title: Option<String>)
    ensures
        opt_chars(title) == window_title_spec(pid, windows@),
        title is None <==> !(exists|i: int| 0 <= i < windows@.len()
            && (#[trigger] windows@[i]).owner_pid == pid && windows@[i].visible && windows@[i].text@.len() > 0),
        title matches Some(t) ==> exists|i: int| 0 <= i < windows@.len()
            && (#[trigger] windows@[i]).owner_pid == pid && windows@[i].visible && windows@[i].text@.len() > 0
            && t@ == utf16_lossy(windows@[i].text@),
{
    proof {
        lemma_title_from_last_visible_window(pid, windows@);
    }
    let mut title: Option<String> = None;
    let mut i: usize = 0;
    while i < windows.len()
        invariant
            i <= windows.len(),
            opt_chars(title) == window_title_spec(pid, windows@.take(i as int)),
        decreases windows.len() - i,
    {
        proof {
            assert(windows@.take(i as int + 1).drop_last() =~= windows@.take(i as int));
            assert(windows@.take(i as int + 1).last() == windows@[i as int]);
        }
        let w = &windows[i];
        if w.owner_pid == pid && w.visible && w.text.len() > 0 {
            title = Some(from_utf16_lossy(w.text.as_slice()));
        }
        i = i + 1;
    }
    proof {
        assert(windows@.take(windows@.len() as int) =~= windows@);
    }
    title
}

} // verus!
