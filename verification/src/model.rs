//! What is read from a repository, as plain values. The renderers take these
//! and nothing else. Each type has a view that holds the same as
//! characters, bytes and sequences, and the contracts speak of the views.

use vstd::prelude::*;

verus! {

/// What a tree entry is.
#[derive(Clone, Copy, Debug, PartialEq, Eq, Structural)]
pub enum EntryKind {
    /// A directory.
    Tree,
    /// A regular file.
    Blob,
    /// A file with the executable bit.
    BlobExecutable,
    /// A symbolic link.
    Link,
    /// The commit of a submodule.
    Commit,
}

impl EntryKind {
    /// Whether the entry is a file, executable or not.
    pub open spec fn is_file(self) -> bool {
        self == EntryKind::Blob || self == EntryKind::BlobExecutable
    }

    /// Whether the entry is a file, executable or not.
    pub fn holds_file(self) -> (file: bool)
        ensures
            file == self.is_file(),
    {
        matches!(self, EntryKind::Blob | EntryKind::BlobExecutable)
    }

    /// Whether the entry is a directory.
    pub fn holds_tree(self) -> (tree: bool)
        ensures
            tree == (self == EntryKind::Tree),
    {
        matches!(self, EntryKind::Tree)
    }
}

/// One entry of a tree: where it lies, counted from the root of the tree,
/// and what it is.
#[derive(Clone, Debug)]
pub struct TreeEntry {
    pub path: String,
    pub kind: EntryKind,
}

/// A tree entry as characters.
pub struct TreeEntryView {
    pub path: Seq<char>,
    pub kind: EntryKind,
}

impl View for TreeEntry {
    type V = TreeEntryView;

    open spec fn view(&self) -> TreeEntryView {
        TreeEntryView { path: self.path@, kind: self.kind }
    }
}

impl DeepView for TreeEntry {
    type V = TreeEntryView;

    open spec fn deep_view(&self) -> TreeEntryView {
        self@
    }
}

/// A point in time as a commit records it.
#[derive(Clone, Copy, Debug, PartialEq, Eq, Structural)]
pub struct Time {
    /// Seconds since the Unix epoch.
    pub seconds: i64,
    /// The author's offset from UTC, in seconds.
    pub offset: i32,
}

/// How a path changed between two trees.
#[derive(Clone, Copy, Debug, PartialEq, Eq, Structural)]
pub enum ChangeKind {
    Addition,
    Deletion,
    Modification,
    Rewrite,
}

/// Lines that a change adds and removes.
#[derive(Clone, Copy, Debug, PartialEq, Eq, Structural)]
pub struct LineCounts {
    pub insertions: u32,
    pub removals: u32,
}

/// One changed path of a commit, against the commit's base tree.
#[derive(Clone, Debug)]
pub struct ChangeRecord {
    pub kind: ChangeKind,
    /// What the changed entry is. Changes of directories are never shown.
    pub entry: EntryKind,
    /// Where the entry lay before; the same as `new_location` unless the
    /// change is a rewrite.
    pub old_location: String,
    pub new_location: String,
    /// The line counts, or nothing where the content is binary.
    pub counts: Option<LineCounts>,
    /// The bytes before the change, where the base tree has the path.
    pub old_content: Option<Vec<u8>>,
    /// The bytes after the change, where the commit's tree has the path.
    pub new_content: Option<Vec<u8>>,
}

/// A change as characters and bytes.
pub struct ChangeView {
    pub kind: ChangeKind,
    pub entry: EntryKind,
    pub old_location: Seq<char>,
    pub new_location: Seq<char>,
    pub counts: Option<LineCounts>,
    pub old_content: Option<Seq<u8>>,
    pub new_content: Option<Seq<u8>>,
}

/// The bytes of optional content.
pub open spec fn optional_bytes(content: Option<Vec<u8>>) -> Option<Seq<u8>> {
    match content {
        Some(bytes) => Some(bytes@),
        None => None,
    }
}

/// The characters of an optional string.
pub open spec fn optional_text(text: Option<String>) -> Option<Seq<char>> {
    match text {
        Some(text) => Some(text@),
        None => None,
    }
}

impl View for ChangeRecord {
    type V = ChangeView;

    open spec fn view(&self) -> ChangeView {
        ChangeView {
            kind: self.kind,
            entry: self.entry,
            old_location: self.old_location@,
            new_location: self.new_location@,
            counts: self.counts,
            old_content: optional_bytes(self.old_content),
            new_content: optional_bytes(self.new_content),
        }
    }
}

impl DeepView for ChangeRecord {
    type V = ChangeView;

    open spec fn deep_view(&self) -> ChangeView {
        self@
    }
}

/// One commit of the history, with its changes against its first parent, or
/// against the empty tree where it has no parent.
#[derive(Clone, Debug)]
pub struct CommitRecord {
    pub id: String,
    /// The parents in order; the first is the one that history follows.
    pub parent_ids: Vec<String>,
    pub author_name: String,
    pub author_email: String,
    pub author_time: Time,
    /// The first line of the message.
    pub title: String,
    /// The rest of the message, if there is any.
    pub body: Option<String>,
    pub changes: Vec<ChangeRecord>,
}

/// A commit as characters and bytes.
pub struct CommitView {
    pub id: Seq<char>,
    pub parent_ids: Seq<Seq<char>>,
    pub author_name: Seq<char>,
    pub author_email: Seq<char>,
    pub author_time: Time,
    pub title: Seq<char>,
    pub body: Option<Seq<char>>,
    pub changes: Seq<ChangeView>,
}

impl View for CommitRecord {
    type V = CommitView;

    open spec fn view(&self) -> CommitView {
        CommitView {
            id: self.id@,
            parent_ids: self.parent_ids.deep_view(),
            author_name: self.author_name@,
            author_email: self.author_email@,
            author_time: self.author_time,
            title: self.title@,
            body: optional_text(self.body),
            changes: self.changes.deep_view(),
        }
    }
}

impl DeepView for CommitRecord {
    type V = CommitView;

    open spec fn deep_view(&self) -> CommitView {
        self@
    }
}

/// A file of the head tree with its content.
#[derive(Clone, Debug)]
pub struct FileEntry {
    pub path: String,
    pub kind: EntryKind,
    pub data: Vec<u8>,
}

/// A file as characters and bytes.
pub struct FileView {
    pub path: Seq<char>,
    pub kind: EntryKind,
    pub data: Seq<u8>,
}

impl View for FileEntry {
    type V = FileView;

    open spec fn view(&self) -> FileView {
        FileView { path: self.path@, kind: self.kind, data: self.data@ }
    }
}

impl DeepView for FileEntry {
    type V = FileView;

    open spec fn deep_view(&self) -> FileView {
        self@
    }
}

/// A tag or a branch, with the commit it points to.
#[derive(Clone, Debug)]
pub struct RefRecord {
    /// The short name.
    pub name: String,
    /// When the commit was authored.
    pub time: Time,
    /// Who authored the commit.
    pub author: String,
}

/// A ref as characters.
pub struct RefView {
    pub name: Seq<char>,
    pub time: Time,
    pub author: Seq<char>,
}

impl View for RefRecord {
    type V = RefView;

    open spec fn view(&self) -> RefView {
        RefView { name: self.name@, time: self.time, author: self.author@ }
    }
}

impl DeepView for RefRecord {
    type V = RefView;

    open spec fn deep_view(&self) -> RefView {
        self@
    }
}

} // verus!
