//! `vpt stat-file <path>...`: reports the type of each entry, not just whether it
//! exists, so that `test -f` / `test -d` assertions keep their meaning in snapshots.
use vstd::prelude::*;

verus! {

/// What a path names on the file system.
#[derive(Clone, Copy, Debug, PartialEq, Eq, Structural)]
pub enum EntryKind {
    Dir,
    File,
    Missing,
}

/// The kind of an entry, from whether its metadata could be read and, if so,
/// whether it is a directory. Anything readable that is not a directory is a file.
pub open spec fn spec_entry_kind(found: bool, is_dir: bool) -> EntryKind {
    if !found {
        EntryKind::Missing
    } else if is_dir {
        EntryKind::Dir
    } else {
        EntryKind::File
    }
}

/// Classifies an entry from what its metadata lookup gave.
pub fn entry_kind(found: bool, is_dir: bool) -> (kind: EntryKind)
    ensures
        kind == spec_entry_kind(found, is_dir),
{
    if !found {
        EntryKind::Missing
    } else if is_dir {
        EntryKind::Dir
    } else {
        EntryKind::File
    }
}

/// The word that names a kind in the report: `dir` for a directory, `exists` for
/// any other entry that is there, `missing` for a path with nothing behind it.
pub open spec fn spec_kind_word(kind: EntryKind) -> Seq<char> {
    match kind {
        EntryKind::Dir => "dir"@,
        EntryKind::File => "exists"@,
        EntryKind::Missing => "missing"@,
    }
}

/// The report line for one path: the path as given, `": "`, and the kind's word.
pub fn stat_line(path: &str, kind: EntryKind) -> (line: String)
    ensures
        line@ == path@ + ": "@ + spec_kind_word(kind),
{
    let mut line = String::from_str(path);
    line.append(": ");
    match kind {
        EntryKind::Dir => line.append("dir"),
        EntryKind::File => line.append("exists"),
        EntryKind::Missing => line.append("missing"),
    }
    line
}

} // verus!
