//! Plain data describing files, diffs and store lookups.

use vstd::prelude::*;

verus! {

/// Content-derived identifier of a file's bytes in the store.
#[derive(Clone, Copy, Debug, Eq)]
pub struct HgId {
    pub bytes: [u8; 20],
}

impl PartialEq for HgId {
    fn eq(&self, other: &HgId) -> (r: bool) {
        let mut i: usize = 0;
        while i < 20
            invariant
                i <= 20,
                forall|j: int| 0 <= j < i ==> self.bytes[j] == other.bytes[j],
            decreases 20 - i,
        {
            if self.bytes[i] != other.bytes[i] {
                return false;
            }
            i += 1;
        }
        assert(self.bytes =~= other.bytes);
        true
    }
}

impl vstd::std_specs::cmp::PartialEqSpecImpl for HgId {
    open spec fn obeys_eq_spec() -> bool {
        true
    }

    open spec fn eq_spec(&self, other: &HgId) -> bool {
        *self == *other
    }
}

/// Kind of a file in a tree.
#[derive(Clone, Copy, Debug, PartialEq, Eq, Structural)]
pub enum FileType {
    Regular,
    Executable,
    Symlink,
}

/// What a tree records about one file.
#[derive(Clone, Copy, Debug, Eq)]
pub struct FileMetadata {
    pub hgid: HgId,
    pub file_type: FileType,
}

impl PartialEq for FileMetadata {
    fn eq(&self, other: &FileMetadata) -> (r: bool) {
        self.hgid == other.hgid && self.file_type == other.file_type
    }
}

impl vstd::std_specs::cmp::PartialEqSpecImpl for FileMetadata {
    open spec fn obeys_eq_spec() -> bool {
        true
    }

    open spec fn eq_spec(&self, other: &FileMetadata) -> bool {
        *self == *other
    }
}

/// How one path differs between the left and the right tree.
#[derive(Clone, Copy, Debug, PartialEq, Eq)]
pub enum DiffType {
    /// Present only in the left tree.
    LeftOnly(FileMetadata),
    /// Present only in the right tree.
    RightOnly(FileMetadata),
    /// Present in both, with the left metadata first.
    Changed(FileMetadata, FileMetadata),
}

/// One path of a diff between two trees.
#[derive(Clone, Debug, PartialEq, Eq)]
pub struct DiffEntry {
    pub path: String,
    pub diff_type: DiffType,
}

/// Mathematical value of a [`DiffEntry`].
pub struct DiffEntryView {
    pub path: Seq<char>,
    pub diff_type: DiffType,
}

impl View for DiffEntry {
    type V = DiffEntryView;

    open spec fn view(&self) -> DiffEntryView {
        DiffEntryView { path: self.path@, diff_type: self.diff_type }
    }
}

impl DiffEntry {
    pub fn new(path: String, diff_type: DiffType) -> (r: DiffEntry)
        ensures
            r.path == path,
            r.diff_type == diff_type,
    {
        DiffEntry { path, diff_type }
    }

    /// An entry for a file that exists only in the left tree.
    pub fn left(path: String, meta: FileMetadata) -> (r: DiffEntry)
        ensures
            r.path == path,
            r.diff_type == DiffType::LeftOnly(meta),
    {
        DiffEntry { path, diff_type: DiffType::LeftOnly(meta) }
    }

    /// An entry for a file that exists only in the right tree.
    pub fn right(path: String, meta: FileMetadata) -> (r: DiffEntry)
        ensures
            r.path == path,
            r.diff_type == DiffType::RightOnly(meta),
    {
        DiffEntry { path, diff_type: DiffType::RightOnly(meta) }
    }

    /// An entry for a file whose metadata differs between the trees.
    pub fn changed(path: String, old_meta: FileMetadata, new_meta: FileMetadata) -> (r: DiffEntry)
        ensures
            r.path == path,
            r.diff_type == DiffType::Changed(old_meta, new_meta),
    {
        DiffEntry { path, diff_type: DiffType::Changed(old_meta, new_meta) }
    }
}

/// What the store is asked for: the content `hgid` of the file at `path`.
#[derive(Clone, Debug, PartialEq, Eq)]
pub struct Key {
    pub path: String,
    pub hgid: HgId,
}

/// Mathematical value of a [`Key`].
pub struct KeyView {
    pub path: Seq<char>,
    pub hgid: HgId,
}

impl View for Key {
    type V = KeyView;

    open spec fn view(&self) -> KeyView {
        KeyView { path: self.path@, hgid: self.hgid }
    }
}

impl Key {
    pub fn new(path: String, hgid: HgId) -> (r: Key)
        ensures
            r.path == path,
            r.hgid == hgid,
    {
        Key { path, hgid }
    }
}

/// Outcome of looking one key up in the store.
#[derive(Clone, Debug, PartialEq, Eq)]
pub enum StoreResult {
    /// The store holds these bytes under the key.
    Found(Vec<u8>),
    /// The store holds nothing under this key.
    NotFound(Key),
}

/// Mathematical value of a [`StoreResult`].
pub enum StoreResultView {
    Found(Seq<u8>),
    NotFound(KeyView),
}

impl View for StoreResult {
    type V = StoreResultView;

    open spec fn view(&self) -> StoreResultView {
        match *self {
            StoreResult::Found(data) => StoreResultView::Found(data@),
            StoreResult::NotFound(key) => StoreResultView::NotFound(key@),
        }
    }
}

/// How a written file differs from a plain regular file.
#[derive(Clone, Copy, Debug, PartialEq, Eq, Structural)]
pub enum UpdateFlag {
    Symlink,
    Executable,
}

} // verus!
