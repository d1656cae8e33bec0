use vstd::prelude::*;

verus! {

/// Whether a filesystem entry is a directory or a regular file.
#[derive(Clone, Copy, Debug, PartialEq, Eq, Structural)]
pub enum EntryKind {
    Directory,
    File,
}

/// One entry of the traversal: the path as the walker printed it, the
/// entry's base name, and its kind. Entries are produced transiently
/// and consumed by the report builder.
pub struct FsEntry {
    pub path: String,
    pub name: String,
    pub kind: EntryKind,
}

/// The mathematical image of an [`FsEntry`].
pub ghost struct FsEntryV {
    pub path: Seq<char>,
    pub name: Seq<char>,
    pub kind: EntryKind,
}

impl View for FsEntry {
    type V = FsEntryV;

    open spec fn view(&self) -> FsEntryV {
        FsEntryV { path: self.path@, name: self.name@, kind: self.kind }
    }
}

impl DeepView for FsEntry {
    type V = FsEntryV;

    open spec fn deep_view(&self) -> FsEntryV {
        self.view()
    }
}

} // verus!
