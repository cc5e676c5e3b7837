use dzsspeedy::process::{
    arch_label, enumerate_modules, window_title, working_set_kb, FullProbe, ModuleEntry, ProcessCache, ProcessEntry,
    QuickProbe, WindowEntry,
};
use std::cell::Cell;

fn padded(s: &str, width: usize) -> Vec<u16> {
    let mut v: Vec<u16> = s.encode_utf16().collect();
    while v.len() < width {
        v.push(0);
    }
    v
}

fn entry(pid: u32, name: &str) -> ProcessEntry {
    ProcessEntry { pid, exe_file: padded(name, 260) }
}

fn quick(pid: u32) -> QuickProbe {
    QuickProbe { arch: "x64".to_string(), exe_path: Some(format!(r"C:\p{pid}.exe")), admin: pid == 4 }
}

fn full(pid: u32) -> FullProbe {
    FullProbe {
        arch: "x86".to_string(),
        window_title: Some(format!("window {pid}")),
        memory_kb: pid as u64 * 100,
        exe_path: Some(format!(r"C:\p{pid}.exe")),
        admin: false,
    }
}

#[test]
fn modules_without_a_name_are_skipped() {
    let entries = vec![
        ModuleEntry { name: padded("game.exe", 256), path: padded(r"C:\g\game.exe", 260), base_address: 0x40_0000, size: 4096 },
        ModuleEntry { name: padded("", 256), path: padded(r"C:\x.dll", 260), base_address: 1, size: 2 },
        ModuleEntry { name: padded("ntdll.dll", 256), path: padded(r"C:\w\ntdll.dll", 260), base_address: 0x7ff0_0000, size: 8192 },
    ];
    let m = enumerate_modules(&entries);
    assert_eq!(m.len(), 2);
    assert_eq!((m[0].name.as_str(), m[0].path.as_str(), m[0].base_address, m[0].size), ("game.exe", r"C:\g\game.exe", 0x40_0000, 4096));
    assert_eq!((m[1].name.as_str(), m[1].base_address), ("ntdll.dll", 0x7ff0_0000));
}

#[test]
fn fast_listing_probes_new_processes_once() {
    let mut cache = ProcessCache::new();
    let probes = Cell::new(0u32);
    let entries = vec![entry(4, "System"), entry(9, ""), entry(12, "game.exe")];
    let probe = |pid: u32| {
        probes.set(probes.get() + 1);
        quick(pid)
    };
    let rows = cache.enumerate_processes_fast(&entries, &probe);
    assert_eq!(rows.len(), 2);
    assert_eq!((rows[0].pid, rows[0].name.as_str(), rows[0].admin), (4, "System", true));
    assert_eq!((rows[1].pid, rows[1].arch.as_str(), rows[1].memory_kb), (12, "x64", 0));
    assert_eq!(rows[1].window_title, None);
    assert_eq!(rows[1].exe_path.as_deref(), Some(r"C:\p12.exe"));
    assert_eq!(probes.get(), 2);
    let again = cache.enumerate_processes_fast(&entries, &probe);
    assert_eq!(again.len(), 2);
    assert_eq!(probes.get(), 2);
    assert!(cache.cache_get(12).is_some());
}

#[test]
fn fast_listing_uses_the_details_of_a_full_listing() {
    let mut cache = ProcessCache::new();
    let entries = vec![entry(12, "game.exe")];
    let rows = cache.enumerate_processes_full(&entries, full);
    assert_eq!(rows[0].window_title.as_deref(), Some("window 12"));
    assert_eq!(rows[0].memory_kb, 1200);
    let fast = cache.enumerate_processes_fast(&entries, |_: u32| -> QuickProbe { panic!("cached details must be used") });
    assert_eq!(fast[0].window_title.as_deref(), Some("window 12"));
    assert_eq!(fast[0].arch, "x86");
}

#[test]
fn full_listing_forgets_processes_that_are_gone() {
    let mut cache = ProcessCache::new();
    cache.cache_set(1, "x64".to_string(), None, 5, None, false);
    cache.icon_set(1, Some("icon1".to_string()));
    cache.icon_set(12, Some("icon12".to_string()));
    let rows = cache.enumerate_processes_full(&[entry(12, "game.exe")], full);
    assert_eq!(rows.len(), 1);
    assert!(cache.cache_get(1).is_none());
    assert!(cache.icon_get(1).is_none());
    assert_eq!(cache.icon_get(12), Some(Some("icon12".to_string())));
    assert_eq!(cache.cache_get(12).unwrap().memory_kb, 1200);
}

#[test]
fn icons_are_extracted_once_per_process() {
    let mut cache = ProcessCache::new();
    cache.cache_set(7, "x64".to_string(), None, 0, Some(r"C:\cached.exe".to_string()), false);
    let extractions = Cell::new(0u32);
    let extract = |path: &str| {
        extractions.set(extractions.get() + 1);
        Some(format!("icon of {path}"))
    };
    let icon = cache.get_process_icon(7, |_: u32| -> Option<String> { panic!("the cached path must be used") }, &extract);
    assert_eq!(icon.as_deref(), Some(r"icon of C:\cached.exe"));
    let icon = cache.get_process_icon(7, |_: u32| None, &extract);
    assert_eq!(icon.as_deref(), Some(r"icon of C:\cached.exe"));
    assert_eq!(extractions.get(), 1);
}

#[test]
fn failed_icon_extraction_is_remembered() {
    let mut cache = ProcessCache::new();
    let extractions = Cell::new(0u32);
    let extract = |_: &str| {
        extractions.set(extractions.get() + 1);
        None
    };
    assert_eq!(cache.get_process_icon(8, |_: u32| Some(r"C:\q.exe".to_string()), &extract), None);
    assert_eq!(cache.get_process_icon(8, |_: u32| Some(r"C:\q.exe".to_string()), &extract), None);
    assert_eq!(extractions.get(), 1);
    assert_eq!(cache.icon_get(8), Some(None));
}

#[test]
fn unknown_executable_path_is_not_cached() {
    let mut cache = ProcessCache::new();
    assert_eq!(cache.get_process_icon(9, |_: u32| None, |_: &str| -> Option<String> { panic!("nothing to extract") }), None);
    assert_eq!(cache.icon_get(9), None);
}

fn window(owner_pid: u32, visible: bool, text: &str) -> WindowEntry {
    WindowEntry { owner_pid, visible, text: text.encode_utf16().collect() }
}

#[test]
fn the_last_visible_titled_window_names_the_process() {
    let windows = vec![
        window(5, true, "First"),
        window(6, true, "Other"),
        window(5, false, "Hidden"),
        window(5, true, ""),
        window(5, true, "Main"),
        window(6, true, "Later"),
    ];
    assert_eq!(window_title(5, &windows).as_deref(), Some("Main"));
    assert_eq!(window_title(7, &windows), None);
}

#[test]
fn architecture_and_memory_figures() {
    assert_eq!(arch_label(Some(true)), "x86");
    assert_eq!(arch_label(Some(false)), "x64");
    assert_eq!(arch_label(None), "x64");
    assert_eq!(working_set_kb(10_240), 10);
    assert_eq!(working_set_kb(1023), 0);
}
