//! What a look at a file-system entry (without following symlinks) tells.
use vstd::prelude::*;

verus! {

/// The type of a file-system entry; a symlink is `Other`.
#[derive(Clone, Copy, Debug, PartialEq, Eq, Structural)]
pub enum EntryType {
    Directory,
    File,
    Other,
}

/// The facts about one entry that decide whether it is empty.
#[derive(Clone, Copy, Debug)]
pub struct EntryProbe {
    pub kind: EntryType,
    /// For a directory: whether it holds at least one entry.
    pub has_children: bool,
    /// For a file: its length in bytes.
    pub len: u64,
}

/// Whether the probed entry is empty; `None` for an entry that is neither a
/// directory nor a regular file.
pub open spec fn entry_empty(p: EntryProbe) -> Option<bool> {
    match p.kind {
        EntryType::Directory => Some(!p.has_children),
        EntryType::File => Some(p.len == 0),
        EntryType::Other => None,
    }
}

/// Whether the probed entry is empty: a directory without entries, or a file
/// of length zero. `None` where emptiness is not defined.
pub fn is_entry_empty(p: &EntryProbe) -> (r: Option<bool>)
    ensures
        r == entry_empty(*p),
{
    match p.kind {
        EntryType::Directory => Some(!p.has_children),
        EntryType::File => Some(p.len == 0),
        EntryType::Other => None,
    }
}

/// An empty directory is reported empty; once it holds an entry it is not, and
/// it stays a directory.
pub proof fn lemma_directory_emptiness(before: EntryProbe, after: EntryProbe)
    requires
        before.kind == EntryType::Directory,
        !before.has_children,
        after.kind == before.kind,
        after.has_children,
    ensures
        entry_empty(before) == Some(true),
        entry_empty(after) == Some(false),
        after.kind == EntryType::Directory,
{
}

} // verus!
