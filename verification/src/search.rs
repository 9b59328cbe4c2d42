//! Recursive discovery of the Ghostscript executable in a directory tree.
//!
//! The embedding process walks the directory that an installer or archive was
//! unpacked into (with a depth cap, so symlink cycles cannot make the walk
//! unbounded) and hands the tree in as a value. The search itself is verified:
//! a depth-first walk that returns the path of the first entry, in tree
//! order, whose file name matches the executable names sought — compared
//! case-folded for the Windows installer layout, exactly for an unpacked
//! archive.

use vstd::prelude::*;
use vstd::string::*;

use crate::strutil::{eq_ignore_ascii_case, spec_lower, str_eq};

verus! {

/// A directory tree as a value: file names only, no contents.
pub enum FsEntry {
    File { name: String },
    Dir { name: String, entries: Vec<FsEntry> },
}

/// Which executable names a search looks for.
#[derive(Clone, Copy, Debug, PartialEq, Eq, Structural)]
pub enum SearchTarget {
    /// What a Windows installer leaves behind, compared case-insensitively.
    WindowsInstallerGs,
    /// What an unpacked Unix archive holds, compared exactly.
    UnixArchiveGs,
}

/// Whether a file name is one of the sought executable names.
pub open spec fn spec_name_matches(target: SearchTarget, name: Seq<char>) -> bool {
    match target {
        SearchTarget::WindowsInstallerGs => spec_lower(name) == "gswin64c.exe"@ || spec_lower(name)
            == "gswin32c.exe"@ || spec_lower(name) == "gs.exe"@,
        SearchTarget::UnixArchiveGs => name == "gs"@ || name == "ghostscript"@,
    }
}

/// Tests a file name against the sought executable names.
pub fn name_matches(target: SearchTarget, name: &str) -> (r: bool)
    ensures
        r == spec_name_matches(target, name@),
{
    match target {
        SearchTarget::WindowsInstallerGs => eq_ignore_ascii_case(name, "gswin64c.exe")
            || eq_ignore_ascii_case(name, "gswin32c.exe") || eq_ignore_ascii_case(name, "gs.exe"),
        SearchTarget::UnixArchiveGs => str_eq(name, "gs") || str_eq(name, "ghostscript"),
    }
}

/// The path (as name components from the searched root) of the first match in
/// one entry, depth first.
pub open spec fn spec_find_in_entry(target: SearchTarget, e: FsEntry) -> Option<Seq<Seq<char>>>
    decreases e,
{
    match e {
        FsEntry::File { name } => if spec_name_matches(target, name@) {
            Some(seq![name@])
        } else {
            None
        },
        FsEntry::Dir { name, entries } => match spec_find_in_entries(target, entries@) {
            Some(p) => Some(seq![name@] + p),
            None => None,
        },
    }
}

/// The path of the first match across a list of sibling entries, in order.
pub open spec fn spec_find_in_entries(target: SearchTarget, s: Seq<FsEntry>) -> Option<
    Seq<Seq<char>>,
>
    decreases s,
{
    if s.len() == 0 {
        None
    } else {
        match spec_find_in_entry(target, s[0]) {
            Some(p) => Some(p),
            None => spec_find_in_entries(target, s.drop_first()),
        }
    }
}

/// Whether path `p` (name components) leads through entry `e` to a file
/// whose name matches the target.
pub open spec fn spec_path_matches_entry(target: SearchTarget, e: FsEntry, p: Seq<Seq<char>>) -> bool
    decreases e,
{
    match e {
        FsEntry::File { name } => p == seq![name@] && spec_name_matches(target, name@),
        FsEntry::Dir { name, entries } => p.len() > 1 && p[0] == name@ && spec_path_matches_in(
            target,
            entries@,
            p.drop_first(),
        ),
    }
}

/// Whether path `p` leads through some entry of `s` to a matching file.
pub open spec fn spec_path_matches_in(target: SearchTarget, s: Seq<FsEntry>, p: Seq<Seq<char>>) -> bool
    decreases s,
{
    exists|i: int| 0 <= i < s.len() && spec_path_matches_entry(target, s[i], p)
}

/// Search soundness for one entry: a found path leads to a matching file.
pub proof fn lemma_find_entry_sound(target: SearchTarget, e: FsEntry)
    ensures
        spec_find_in_entry(target, e) matches Some(p) ==> p.len() >= 1 && spec_path_matches_entry(
            target,
            e,
            p,
        ),
    decreases e,
{
    match e {
        FsEntry::File { name } => {},
        FsEntry::Dir { name, entries } => {
            lemma_find_entries_sound(target, entries@);
            if let Some(p_rest) = spec_find_in_entries(target, entries@) {
                let p = seq![name@] + p_rest;
                assert(p.drop_first() =~= p_rest);
            }
        },
    }
}

/// Search soundness: a path the depth-first search returns leads to a file,
/// somewhere in the tree, whose name matches the target.
pub proof fn lemma_find_entries_sound(target: SearchTarget, s: Seq<FsEntry>)
    ensures
        spec_find_in_entries(target, s) matches Some(p) ==> p.len() >= 1 && spec_path_matches_in(
            target,
            s,
            p,
        ),
    decreases s,
{
    if s.len() > 0 {
        lemma_find_entry_sound(target, s[0]);
        lemma_find_entries_sound(target, s.drop_first());
        match spec_find_in_entry(target, s[0]) {
            Some(p) => {
                assert(spec_path_matches_entry(target, s[0], p));
            },
            None => {
                if let Some(p) = spec_find_in_entries(target, s.drop_first()) {
                    let i = choose|i: int|
                        0 <= i < s.drop_first().len() && spec_path_matches_entry(
                            target,
                            s.drop_first()[i],
                            p,
                        );
                    assert(spec_path_matches_entry(target, s[i + 1], p));
                }
            },
        }
    }
}

/// Search completeness for one entry: when nothing is found, no path through
/// the entry leads to a matching file.
pub proof fn lemma_find_entry_complete(target: SearchTarget, e: FsEntry)
    ensures
        spec_find_in_entry(target, e) is None ==> forall|p: Seq<Seq<char>>|
            !spec_path_matches_entry(target, e, p),
    decreases e,
{
    match e {
        FsEntry::File { name } => {
            if spec_find_in_entry(target, e) is None {
                assert(!spec_name_matches(target, name@));
                assert forall|p: Seq<Seq<char>>| !spec_path_matches_entry(target, e, p) by {}
            }
        },
        FsEntry::Dir { name, entries } => {
            lemma_find_entries_complete(target, entries@);
            if spec_find_in_entry(target, e) is None {
                assert forall|p: Seq<Seq<char>>| !spec_path_matches_entry(target, e, p) by {
                    assert(!spec_path_matches_in(target, entries@, p.drop_first()));
                }
            }
        },
    }
}

/// Search completeness: when the depth-first search returns nothing, the tree
/// holds no matching file at all.
pub proof fn lemma_find_entries_complete(target: SearchTarget, s: Seq<FsEntry>)
    ensures
        spec_find_in_entries(target, s) is None ==> forall|p: Seq<Seq<char>>|
            !spec_path_matches_in(target, s, p),
    decreases s,
{
    if s.len() > 0 && spec_find_in_entries(target, s) is None {
        lemma_find_entry_complete(target, s[0]);
        lemma_find_entries_complete(target, s.drop_first());
        assert forall|p: Seq<Seq<char>>| !spec_path_matches_in(target, s, p) by {
            if spec_path_matches_in(target, s, p) {
                let i = choose|i: int|
                    0 <= i < s.len() && spec_path_matches_entry(target, s[i], p);
                if i > 0 {
                    assert(spec_path_matches_entry(target, s.drop_first()[i - 1], p));
                    assert(spec_path_matches_in(target, s.drop_first(), p));
                }
            }
        }
    }
}

/// Searches one entry depth first.
pub fn find_in_entry(target: SearchTarget, e: &FsEntry) -> (r: Option<Vec<String>>)
    ensures
        match spec_find_in_entry(target, *e) {
            Some(p) => r matches Some(v) && v.deep_view() == p,
            None => r is None,
        },
    decreases *e,
{
    match e {
        FsEntry::File { name } => {
            if name_matches(target, name.as_str()) {
                let mut path: Vec<String> = Vec::new();
                path.push(name.clone());
                proof {
                    assert(path.deep_view() =~= seq![name@]);
                }
                Some(path)
            } else {
                None
            }
        },
        FsEntry::Dir { name, entries } => {
            match find_in_entries(target, entries) {
                Some(mut path) => {
                    path.insert(0, name.clone());
                    proof {
                        let p = spec_find_in_entries(target, entries@).unwrap();
                        assert(path.deep_view() =~= seq![name@] + p);
                    }
                    Some(path)
                },
                None => None,
            }
        },
    }
}

/// Searches sibling entries in order, each depth first.
pub fn find_in_entries(target: SearchTarget, entries: &Vec<FsEntry>) -> (r: Option<Vec<String>>)
    ensures
        match spec_find_in_entries(target, entries@) {
            Some(p) => r matches Some(v) && v.deep_view() == p,
            None => r is None,
        },
    decreases entries@,
{
    let mut i: usize = 0;
    proof {
        assert(entries@.skip(0) =~= entries@);
    }
    while i < entries.len()
        invariant
            i <= entries@.len(),
            spec_find_in_entries(target, entries@) == spec_find_in_entries(
                target,
                entries@.skip(i as int),
            ),
        decreases entries@.len() - i,
    {
        proof {
            assert(decreases_to!(entries@ => entries@[i as int]));
        }
        let found = find_in_entry(target, &entries[i]);
        match found {
            Some(path) => {
                return Some(path);
            },
            None => {
                proof {
                    assert(entries@.skip(i as int).drop_first() =~= entries@.skip(i as int + 1));
                }
                i = i + 1;
            },
        }
    }
    None
}

/// Looks for the executable a Windows installer leaves behind, anywhere under
/// the unpacked tree: the path of the first `gswin64c.exe`, `gswin32c.exe` or
/// `gs.exe` (case-insensitive), depth first, or `None`.
pub fn find_gs_executable_recursive(entries: &Vec<FsEntry>) -> (r: Option<Vec<String>>)
    ensures
        match spec_find_in_entries(SearchTarget::WindowsInstallerGs, entries@) {
            Some(p) => r matches Some(v) && v.deep_view() == p,
            None => r is None,
        },
{
    find_in_entries(SearchTarget::WindowsInstallerGs, entries)
}

/// Locates the `gs` (or `ghostscript`) binary in an unpacked archive tree:
/// the path of the first exact-name match, depth first, or an error saying
/// the executable was not found.
pub fn find_gs_binary(entries: &Vec<FsEntry>) -> (r: Result<Vec<String>, String>)
    ensures
        match spec_find_in_entries(SearchTarget::UnixArchiveGs, entries@) {
            Some(p) => r matches Ok(v) && v.deep_view() == p,
            None => r matches Err(m) && m@
                == "Ghostscript executable not found in the extracted files"@,
        },
{
    match find_in_entries(SearchTarget::UnixArchiveGs, entries) {
        Some(path) => Ok(path),
        None => Err("Ghostscript executable not found in the extracted files".to_owned()),
    }
}

} // verus!
