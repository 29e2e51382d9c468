//! Archive entries: what a walked folder hands to a packer and what an
//! unpacker hands back.

use vstd::prelude::*;

use crate::resolve::ResolvedTarget;

verus! {

/// The kind of a walked entry.
#[derive(Clone, Copy, Debug, PartialEq, Eq, Structural)]
pub enum EntryKind {
    File,
    Directory,
}

/// One entry of a folder, relative to the walk root.  `data` carries a
/// file's contents and stays empty for directories; `mode` carries POSIX
/// permission bits when the walker read them.
pub struct ArchiveEntry {
    pub rel_path: String,
    pub kind: EntryKind,
    pub mode: Option<u32>,
    pub data: Vec<u8>,
}

/// The mathematical value of an entry.
pub struct EntryV {
    pub rel_path: Seq<char>,
    pub kind: EntryKind,
    pub mode: Option<u32>,
    pub data: Seq<u8>,
}

impl View for ArchiveEntry {
    type V = EntryV;

    open spec fn view(&self) -> EntryV {
        EntryV {
            rel_path: self.rel_path@,
            kind: self.kind,
            mode: self.mode,
            data: self.data@,
        }
    }
}

/// A `..` path component starting at position `i` of `p`.
pub open spec fn spec_dotdot_at(p: Seq<char>, i: int) -> bool {
    &&& 0 <= i
    &&& i + 2 <= p.len()
    &&& p[i] == '.'
    &&& p[i + 1] == '.'
    &&& (i == 0 || p[i - 1] == '/')
    &&& (i + 2 == p.len() || p[i + 2] == '/')
}

/// A usable relative path: non-empty, not absolute, without `..`
/// components — so that it cannot escape the extraction root — and without
/// NUL characters, which no platform path can carry and the tar format
/// refuses.
pub open spec fn spec_rel_path_ok(p: Seq<char>) -> bool {
    &&& p.len() > 0
    &&& p[0] != '/'
    &&& (forall|i: int| !spec_dotdot_at(p, i))
    &&& (forall|i: int| 0 <= i < p.len() ==> p[i] != '\0')
}

/// What an unpacker may hand back: an empty name (a member whose stored
/// name held nothing usable) or a usable relative path.
pub open spec fn spec_sanitized_path(p: Seq<char>) -> bool {
    p.len() == 0 || spec_rel_path_ok(p)
}

/// All entries of the sequence have usable relative paths.
pub open spec fn spec_entries_wf(entries: Seq<ArchiveEntry>) -> bool {
    forall|i: int| 0 <= i < entries.len() ==> spec_rel_path_ok(entries[i].rel_path@)
}

/// Check one relative path.
pub fn rel_path_ok(p: &str) -> (r: bool)
    ensures
        r == spec_rel_path_ok(p@),
{
    let n = p.unicode_len();
    if n == 0 {
        return false;
    }
    if p.get_char(0) == '/' {
        return false;
    }
    let mut i: usize = 0;
    while i < n
        invariant
            i <= n,
            n == p@.len(),
            forall|j: int| j < i ==> !spec_dotdot_at(p@, j),
            forall|j: int| 0 <= j < i ==> p@[j] != '\0',
        decreases n - i,
    {
        if p.get_char(i) == '\0' {
            return false;
        }
        let is_dotdot = n - i >= 2 && p.get_char(i) == '.' && p.get_char(i + 1) == '.' && (i == 0
            || p.get_char(i - 1) == '/') && (n - i == 2 || p.get_char(i + 2) == '/');
        if is_dotdot {
            proof {
                assert(spec_dotdot_at(p@, i as int));
            }
            return false;
        }
        proof {
            assert(!spec_dotdot_at(p@, i as int));
        }
        i += 1;
    }
    proof {
        assert forall|j: int| !spec_dotdot_at(p@, j) by {
            if 0 <= j && j + 2 <= p@.len() {
                assert(j < n);
            }
        }
    }
    true
}

/// Check every entry the walker produced.
pub fn entries_well_formed(entries: &Vec<ArchiveEntry>) -> (r: bool)
    ensures
        r == spec_entries_wf(entries@),
{
    let mut i: usize = 0;
    while i < entries.len()
        invariant
            i <= entries@.len(),
            forall|j: int| 0 <= j < i ==> spec_rel_path_ok(entries@[j].rel_path@),
        decreases entries@.len() - i,
    {
        if !rel_path_ok(entries[i].rel_path.as_str()) {
            return false;
        }
        i += 1;
    }
    true
}

/// The permission bits a packed entry carries: what the walker read, or
/// `rwxr-xr-x` when it read none.
pub open spec fn spec_entry_mode(mode: Option<u32>) -> u32 {
    match mode {
        Some(m) => m,
        None => 0o755u32,
    }
}

/// A packed archive: where it goes and the container bytes to put there.
pub struct PackedArchive {
    pub target: ResolvedTarget,
    pub bytes: Vec<u8>,
}

/// An unpacked archive: the root directory to create and the entries to
/// recreate beneath it.
pub struct UnpackedArchive {
    pub target: ResolvedTarget,
    pub entries: Vec<ArchiveEntry>,
}

/// A decompressed single file: where it goes and its contents.
pub struct UnpackedFile {
    pub target: ResolvedTarget,
    pub data: Vec<u8>,
}

} // verus!
