use vstd::prelude::*;

verus! {

/// What an entry of a directory walk is on disk.
#[derive(Debug, Clone, Copy, PartialEq, Eq, Structural)]
pub enum EntryKind {
    /// A regular file.
    File,
    /// A directory.
    Directory,
    /// Anything else, such as a symbolic link.
    Other,
}

/// One entry of a directory walk, as the caller found it on disk.
#[derive(Debug, Clone, PartialEq, Eq)]
pub struct WalkEntry {
    /// The entry's path, the walk's root included.
    pub path: String,
    pub kind: EntryKind,
}

/// The mathematical value of a [`WalkEntry`].
pub struct EntryView {
    pub path: Seq<char>,
    pub kind: EntryKind,
}

impl EntryView {
    /// Whether the entry is a regular file.
    pub open spec fn is_file(self) -> bool {
        self.kind == EntryKind::File
    }

    /// Whether the entry is a directory.
    pub open spec fn is_dir(self) -> bool {
        self.kind == EntryKind::Directory
    }
}

impl View for WalkEntry {
    type V = EntryView;

    open spec fn view(&self) -> EntryView {
        EntryView { path: self.path@, kind: self.kind }
    }
}

impl WalkEntry {
    /// Whether the entry is a regular file.
    pub fn is_file(&self) -> (yes: bool)
        ensures
            yes == self@.is_file(),
    {
        self.kind == EntryKind::File
    }

    /// Whether the entry is a directory.
    pub fn is_dir(&self) -> (yes: bool)
        ensures
            yes == self@.is_dir(),
    {
        self.kind == EntryKind::Directory
    }
}

/// The values of the entries of a walk, in the walk's order.
pub open spec fn entries_view(entries: Seq<WalkEntry>) -> Seq<EntryView> {
    Seq::new(entries.len(), |i: int| entries[i]@)
}

} // verus!
