//! Reading the target's module list: module names and paths, the Win32
//! errors that mean the target is going away, and finding the speedpatch DLL.
use vstd::prelude::*;
use crate::bridge::ops::RemoteModule;
use crate::text::{
    ascii_lower, chars_eq, chars_of, dec, from_utf16_lossy, joined, lower_ascii_chars,
    push_dec, push_str, string_of, string_of_chars, trim_end_char, trimmed_end_len, utf16_lossy,
};

verus! {

/// The `\\?\` prefix of extended-length Windows paths.
pub open spec fn extended_prefix() -> Seq<char> {
    seq!['\\', '\\', '?', '\\']
}

/// `p` without a leading `\\?\`.
pub open spec fn strip_extended(p: Seq<char>) -> Seq<char> {
    if p.len() >= 4 && p.take(4) == extended_prefix() { p.skip(4) } else { p }
}

/// `p` with every `/` turned into `\`.
pub open spec fn backslashed(p: Seq<char>) -> Seq<char> {
    p.map_values(|c: char| if c == '/' { '\\' } else { c })
}

/// A module path in the form used for comparisons: no `\\?\` prefix,
/// backslashes only, no trailing backslash, ASCII lower case.
pub open spec fn normalized_module_path(p: Seq<char>) -> Seq<char> {
    ascii_lower(trim_end_char(backslashed(strip_extended(p)), '\\'))
}

/// Normalizes a module path for comparison.
pub fn normalize_module_path(path: &str) -> (n: String)
    ensures
        n@ == normalized_module_path(path@),
{
    let v = chars_of(path);
    let prefix = vec!['\\', '\\', '?', '\\'];
    let mut start: usize = 0;
    if v.len() >= 4 && v[0] == prefix[0] && v[1] == prefix[1] && v[2] == prefix[2] && v[3] == prefix[3] {
        start = 4;
        proof { assert(v@.take(4) =~= extended_prefix()); }
    } else {
        proof {
            if v@.len() >= 4 && v@.take(4) == extended_prefix() {
                assert(v@.take(4)[0] == v@[0]);
                assert(v@.take(4)[1] == v@[1]);
                assert(v@.take(4)[2] == v@[2]);
                assert(v@.take(4)[3] == v@[3]);
            }
        }
    }
    let mut slashed: Vec<char> = Vec::new();
    let mut i = start;
    while i < v.len()
        invariant
            start <= i <= v.len(),
            slashed@ == backslashed(v@.subrange(start as int, i as int)),
        decreases v.len() - i,
    {
        let c = v[i];
        slashed.push(if c == '/' { '\\' } else { c });
        i = i + 1;
        proof { assert(slashed@ =~= backslashed(v@.subrange(start as int, i as int))); }
    }
    proof {
        assert(v@.subrange(start as int, v@.len() as int) =~= strip_extended(path@));
    }
    let n = trimmed_end_len(slashed.as_slice(), '\\');
    let mut kept: Vec<char> = Vec::new();
    let mut j: usize = 0;
    while j < n
        invariant
            j <= n <= slashed.len(),
            kept@ == slashed@.take(j as int),
        decreases n - j,
    {
        kept.push(slashed[j]);
        j = j + 1;
        proof { assert(kept@ =~= slashed@.take(j as int)); }
    }
    let lowered = lower_ascii_chars(kept.as_slice());
    string_of_chars(lowered.as_slice())
}

/// A module-entry text field: UTF-16 decoded and stripped of trailing NULs.
pub open spec fn module_text_spec(units: Seq<u16>) -> Seq<char> {
    trim_end_char(utf16_lossy(units), '\0')
}

/// Decodes a NUL-padded module-entry text field.
pub fn module_text(buffer: &[u16]) -> (s: String)
    ensures
        s@ == module_text_spec(buffer@),
{
    let text = from_utf16_lossy(buffer);
    let v = chars_of(text.as_str());
    let n = trimmed_end_len(v.as_slice(), '\0');
    let mut s = String::new();
    let mut i: usize = 0;
    while i < n
        invariant
            i <= n <= v.len(),
            s@ == v@.take(i as int),
        decreases n - i,
    {
        crate::text::push_char(&mut s, v[i]);
        i = i + 1;
        proof { assert(s@ =~= v@.take(i as int)); }
    }
    s
}

/// `HRESULT::from_win32` on the bit pattern of an `HRESULT`.
pub open spec fn hresult_from_win32_spec(error: u32) -> u32 {
    if error == 0 || error >= 0x8000_0000 { error } else { (0x8007_0000 + error % 0x10000) as u32 }
}

/// `HRESULT::from_win32`: the `HRESULT` bit pattern of a Win32 error code.
pub fn hresult_from_win32(error: u32) -> (h: u32)
    ensures
        h == hresult_from_win32_spec(error),
{
    if error == 0 || error >= 0x8000_0000 {
        error
    } else {
        assert((error & 0xffffu32) | 0x0007_0000u32 | 0x8000_0000u32 == 0x8007_0000u32 + error % 0x10000u32) by (bit_vector);
        (error & 0xffff) | 0x0007_0000 | 0x8000_0000
    }
}

/// Win32 `ERROR_INVALID_PARAMETER`.
pub const ERROR_INVALID_PARAMETER: u32 = 87;
/// Win32 `ERROR_PARTIAL_COPY`.
pub const ERROR_PARTIAL_COPY: u32 = 299;
/// Win32 `ERROR_BAD_LENGTH`.
pub const ERROR_BAD_LENGTH: u32 = 24;
/// Win32 `ERROR_NO_MORE_FILES`.
pub const ERROR_NO_MORE_FILES: u32 = 18;

/// How a module-snapshot error is taken.
#[derive(Debug, Clone, Copy, PartialEq, Eq, Structural)]
pub enum ModuleSnapshotErrorKind {
    /// The target is exiting; its module list is simply gone.
    TargetGone,
    Fatal,
}

/// During teardown Windows reports an invalid pid or a partial copy; both
/// mean the target is gone. Every other error is fatal.
pub fn module_snapshot_error_kind(error: u32) -> (k: ModuleSnapshotErrorKind)
    ensures
        k == (if error == hresult_from_win32_spec(ERROR_INVALID_PARAMETER) || error == hresult_from_win32_spec(ERROR_PARTIAL_COPY) {
            ModuleSnapshotErrorKind::TargetGone
        } else {
            ModuleSnapshotErrorKind::Fatal
        }),
{
    if error == hresult_from_win32(ERROR_INVALID_PARAMETER) || error == hresult_from_win32(ERROR_PARTIAL_COPY) {
        ModuleSnapshotErrorKind::TargetGone
    } else {
        ModuleSnapshotErrorKind::Fatal
    }
}

/// What to do after taking a module snapshot failed with `error`.
#[derive(Debug, Clone, Copy, PartialEq, Eq, Structural)]
pub enum SnapshotRetry {
    /// Try again (the list changed while it was read).
    Retry,
    /// The target is gone: report no module.
    TargetGone,
    /// Report the error.
    Fatal,
}

/// The number of snapshot attempts.
pub const SNAPSHOT_ATTEMPTS: u32 = 8;

/// Decides after snapshot attempt `attempt` (from zero) failed with `error`:
/// a changing list is retried while attempts remain.
pub fn module_snapshot_retry(error: u32, attempt: u32) -> (r: SnapshotRetry)
    ensures
        r == (if error == hresult_from_win32_spec(ERROR_BAD_LENGTH) && attempt + 1 < SNAPSHOT_ATTEMPTS {
            SnapshotRetry::Retry
        } else if error == hresult_from_win32_spec(ERROR_INVALID_PARAMETER) || error == hresult_from_win32_spec(ERROR_PARTIAL_COPY) {
            SnapshotRetry::TargetGone
        } else {
            SnapshotRetry::Fatal
        }),
{
    if error == hresult_from_win32(ERROR_BAD_LENGTH) && attempt < SNAPSHOT_ATTEMPTS - 1 {
        SnapshotRetry::Retry
    } else if module_snapshot_error_kind(error) == ModuleSnapshotErrorKind::TargetGone {
        SnapshotRetry::TargetGone
    } else {
        SnapshotRetry::Fatal
    }
}

/// Whether a module-walk error just ends the walk (no more entries, or the
/// target is gone) rather than failing it.
pub fn module_walk_ended(error: u32) -> (ended: bool)
    ensures
        ended == (error == hresult_from_win32_spec(ERROR_NO_MORE_FILES)
            || error == hresult_from_win32_spec(ERROR_INVALID_PARAMETER) || error == hresult_from_win32_spec(ERROR_PARTIAL_COPY)),
{
    error == hresult_from_win32(ERROR_NO_MORE_FILES) || module_snapshot_error_kind(error) == ModuleSnapshotErrorKind::TargetGone
}

/// One entry of a module snapshot, with its fixed-size text fields.
pub struct ModuleSnapshotEntry {
    pub name: Vec<u16>,
    pub path: Vec<u16>,
    pub base: usize,
}

/// The entry is the wanted module: same name (ignoring ASCII case) and, when
/// a path is expected, the same normalized path.
pub open spec fn entry_is_wanted(e: ModuleSnapshotEntry, wanted_name: Seq<char>, expected_path: Option<Seq<char>>) -> bool {
    entry_has_name(e, wanted_name) && match expected_path {
        Some(p) => normalized_module_path(module_text_spec(e.path@)) == normalized_module_path(p),
        None => true,
    }
}

/// The entry has the wanted module name (ignoring ASCII case).
pub open spec fn entry_has_name(e: ModuleSnapshotEntry, wanted_name: Seq<char>) -> bool {
    ascii_lower(module_text_spec(e.name@)) == ascii_lower(wanted_name)
}

/// The paths of the same-named modules among the first `n` entries.
pub open spec fn same_name_paths(entries: Seq<ModuleSnapshotEntry>, wanted_name: Seq<char>) -> Seq<Seq<char>>
    decreases entries.len(),
{
    if entries.len() == 0 {
        seq![]
    } else {
        let prev = same_name_paths(entries.drop_last(), wanted_name);
        if entry_has_name(entries.last(), wanted_name) { prev.push(module_text_spec(entries.last().path@)) } else { prev }
    }
}

/// An optional string slice seen as characters.
pub open spec fn opt_str_view(s: Option<&str>) -> Option<Seq<char>> {
    match s {
        Some(p) => Some(p@),
        None => None,
    }
}

/// How a module walk stopped.
pub enum ModuleWalkEnd {
    /// The list was read to its end (or the target went away).
    Complete,
    /// Reading failed with this error.
    Failed(String),
}

/// Looks for the speedpatch module among the entries read from the target's
/// module list, in order. The first wanted entry is the answer even if the
/// walk failed later; otherwise a failed walk is an error, and a module of the
/// same name from another path is refused.
pub fn find_remote_module(
    pid: u32,
    module_name: &str,
    expected_path: Option<&str>,
    entries: &[ModuleSnapshotEntry],
    end: ModuleWalkEnd,
) -> (r: Result<Option<RemoteModule>, String>)
    ensures
        match r {
            Ok(Some(m)) => exists|i: int| 0 <= i < entries@.len()
                && entry_is_wanted(entries@[i], module_name@, opt_str_view(expected_path))
                && (forall|k: int| 0 <= k < i ==> !entry_is_wanted(#[trigger] entries@[k], module_name@,
                        opt_str_view(expected_path)))
                && m.base == entries@[i].base && m.path@ == module_text_spec(entries@[i].path@),
            _ => forall|k: int| 0 <= k < entries@.len() ==> !entry_is_wanted(#[trigger] entries@[k], module_name@,
                        opt_str_view(expected_path)),
        },
        r is Err <==> (
            (forall|k: int| 0 <= k < entries@.len() ==> !entry_is_wanted(#[trigger] entries@[k], module_name@,
                opt_str_view(expected_path)))
            && (end is Failed || same_name_paths(entries@, module_name@).len() > 0)),
        r matches Err(e) ==> match end {
            ModuleWalkEnd::Failed(f) => e@ == f@,
            ModuleWalkEnd::Complete => e@ == "pid="@ + dec(pid as nat) + " already contains "@ + module_name@
                + " from a different path: "@ + joined(same_name_paths(entries@, module_name@), ", "@),
        },
{
    let ghost expected: Option<Seq<char>> = opt_str_view(expected_path);
    let wanted_name = lower_ascii_chars(chars_of(module_name).as_slice());
    let wanted_path: Option<Vec<char>> = match expected_path {
        Some(p) => Some(chars_of(normalize_module_path(p).as_str())),
        None => None,
    };
    let mut collisions = String::new();
    let mut found_any = false;
    let mut i: usize = 0;
    while i < entries.len()
        invariant
            i <= entries.len(),
            expected == opt_str_view(expected_path),
            wanted_name@ == ascii_lower(module_name@),
            match wanted_path {
                Some(w) => expected matches Some(p) && w@ == normalized_module_path(p),
                None => expected is None,
            },
            forall|k: int| 0 <= k < i ==> !entry_is_wanted(#[trigger] entries@[k], module_name@, expected),
            found_any == (same_name_paths(entries@.take(i as int), module_name@).len() > 0),
            collisions@ == joined(same_name_paths(entries@.take(i as int), module_name@), ", "@),
        decreases entries.len() - i,
    {
        let e = &entries[i];
        proof {
            assert(entries@.take(i as int + 1).drop_last() =~= entries@.take(i as int));
            assert(entries@.take(i as int + 1).last() == entries@[i as int]);
        }
        let name_text = module_text(e.name.as_slice());
        let name = lower_ascii_chars(chars_of(name_text.as_str()).as_slice());
        if chars_eq(name.as_slice(), wanted_name.as_slice()) {
            let path = module_text(e.path.as_slice());
            let path_matches = match &wanted_path {
                Some(w) => {
                    let normalized = chars_of(normalize_module_path(path.as_str()).as_str());
                    chars_eq(normalized.as_slice(), w.as_slice())
                },
                None => true,
            };
            if path_matches {
                proof {
                    assert(*e == entries@[i as int]);
                    assert(entry_is_wanted(entries@[i as int], module_name@, expected));
                }
                return Ok(Some(RemoteModule { base: e.base, path }));
            }
            let ghost before = collisions@;
            if found_any {
                push_str(&mut collisions, ", ");
            }
            push_str(&mut collisions, path.as_str());
            proof {
                let prev = same_name_paths(entries@.take(i as int), module_name@);
                assert(*e == entries@[i as int]);
                assert(entry_has_name(entries@[i as int], module_name@));
                assert(same_name_paths(entries@.take(i as int + 1), module_name@) == prev.push(path@));
                assert(prev.push(path@).drop_last() =~= prev);
                if prev.len() == 0 {
                    assert(collisions@ =~= path@);
                    assert(joined(prev.push(path@), ", "@) == path@);
                } else {
                    assert(collisions@ =~= joined(prev, ", "@) + ", "@ + path@);
                    assert(joined(prev.push(path@), ", "@) == joined(prev, ", "@) + ", "@ + path@);
                }
            }
            found_any = true;
        } else {
            proof {
                assert(*e == entries@[i as int]);
                assert(!entry_has_name(entries@[i as int], module_name@));
                assert(same_name_paths(entries@.take(i as int + 1), module_name@) == same_name_paths(entries@.take(i as int), module_name@));
            }
        }
        i = i + 1;
    }
    proof {
        assert(entries@.take(entries@.len() as int) =~= entries@);
    }
    match end {
        ModuleWalkEnd::Failed(f) => Err(f),
        ModuleWalkEnd::Complete => {
            if found_any {
                let mut e = string_of("pid=");
                push_dec(&mut e, pid as u64);
                push_str(&mut e, " already contains ");
                push_str(&mut e, module_name);
                push_str(&mut e, " from a different path: ");
                push_str(&mut e, collisions.as_str());
                Err(e)
            } else {
                Ok(None)
            }
        },
    }
}

} // verus!
