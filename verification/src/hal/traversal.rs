use vstd::prelude::*;

verus! {

/// What a cleaning policy wants done with a file.
#[derive(Debug, Clone, Copy, PartialEq, Eq, Structural)]
pub enum TraversalAction {
    Keep,
    DeleteFile,
    Stop,
}

/// The type a directory listing reports for an entry.
#[derive(Debug, Clone, Copy, PartialEq, Eq, Structural)]
pub enum FileKind {
    Directory,
    Symlink,
    /// The file system did not say; the entry's mode decides.
    Unknown,
    Other,
}

/// What the walk does with a directory entry.
#[derive(Debug, Clone, Copy, PartialEq, Eq, Structural)]
pub enum EntryStep {
    /// `.`, `..` and symbolic links are passed over.
    Skip,
    /// A subdirectory is walked in turn.
    Descend,
    /// Anything else is a file for the policy.
    Visit,
}

/// Directories deeper than this are not walked.
pub const MAX_WALK_DEPTH: usize = 20;

/// The file-type bits of a mode.
pub const S_IFMT: u32 = 0o170_000;
/// The file type of a directory.
pub const S_IFDIR: u32 = 0o040_000;
/// The file type of a symbolic link.
pub const S_IFLNK: u32 = 0o120_000;

/// Whether the walk may enter a directory at `depth`.
pub fn may_walk(depth: usize) -> (r: bool)
    ensures
        r == (depth <= MAX_WALK_DEPTH),
{
    depth <= MAX_WALK_DEPTH
}

/// `.` or `..`.
pub open spec fn is_dot_name(name: Seq<u8>) -> bool {
    name == seq![46u8] || name == seq![46u8, 46u8]
}

/// Whether an entry is a directory and whether it is a link: the listing's
/// type, or for an unknown type the mode that `statx` gave, when it gave
/// one.
pub open spec fn resolved_kind(kind: FileKind, mode: Option<u32>) -> (bool, bool) {
    if kind == FileKind::Unknown && mode is Some {
        ((mode->0 & S_IFMT) == S_IFDIR, (mode->0 & S_IFMT) == S_IFLNK)
    } else {
        (kind == FileKind::Directory, kind == FileKind::Symlink)
    }
}

pub open spec fn spec_classify_entry(name: Seq<u8>, kind: FileKind, mode: Option<u32>) -> EntryStep {
    if is_dot_name(name) || resolved_kind(kind, mode).1 {
        EntryStep::Skip
    } else if resolved_kind(kind, mode).0 {
        EntryStep::Descend
    } else {
        EntryStep::Visit
    }
}

/// Decides what the walk does with the entry `name` of type `kind`; `mode`
/// is what `statx` gave for an entry of unknown type, if it gave anything.
pub fn classify_entry(name: &[u8], kind: FileKind, mode: Option<u32>) -> (step: EntryStep)
    ensures
        step == spec_classify_entry(name@, kind, mode),
{
    let dot = (name.len() == 1 && name[0] == 46u8) || (name.len() == 2 && name[0] == 46u8 && name[1] == 46u8);
    proof {
        if name.len() == 1 && name[0] == 46u8 {
            assert(name@ =~= seq![46u8]);
        }
        if name.len() == 2 && name[0] == 46u8 && name[1] == 46u8 {
            assert(name@ =~= seq![46u8, 46u8]);
        }
    }
    if dot {
        return EntryStep::Skip;
    }
    let (is_dir, is_link) = match (kind, mode) {
        (FileKind::Unknown, Some(m)) => ((m & S_IFMT) == S_IFDIR, (m & S_IFMT) == S_IFLNK),
        _ => (kind == FileKind::Directory, kind == FileKind::Symlink),
    };
    if is_link {
        EntryStep::Skip
    } else if is_dir {
        EntryStep::Descend
    } else {
        EntryStep::Visit
    }
}

/// The count of removed files after the policy's answer for one file:
/// a deletion counts when the unlink succeeded; `Stop` ends the walk.
pub open spec fn spec_after_action(count: nat, action: TraversalAction, unlinked: bool) -> (nat, bool) {
    match action {
        TraversalAction::DeleteFile => (if unlinked { count + 1 } else { count }, false),
        TraversalAction::Stop => (count, true),
        TraversalAction::Keep => (count, false),
    }
}

/// Counts the policy's answer for one file into the walk's total.
pub fn after_action(count: usize, action: TraversalAction, unlinked: bool) -> (r: (usize, bool))
    requires
        count < usize::MAX,
    ensures
        (r.0 as nat, r.1) == spec_after_action(count as nat, action, unlinked),
{
    match action {
        TraversalAction::DeleteFile => (if unlinked { count + 1 } else { count }, false),
        TraversalAction::Stop => (count, true),
        TraversalAction::Keep => (count, false),
    }
}

/// The running total of a capped size scan of one directory.
#[derive(Debug, Clone, Copy, PartialEq, Eq, Structural)]
pub struct SizeScan {
    pub size: u64,
    pub limit: u64,
}

impl SizeScan {
    /// A scan that has counted nothing and stops past `limit` bytes.
    pub fn new(limit: u64) -> (s: Self)
        ensures
            s.size == 0,
            s.limit == limit,
    {
        SizeScan { size: 0, limit }
    }

    /// A subdirectory is only scanned while the total is under the limit,
    /// and with the room that is left.
    pub fn room_for_subdirectory(&self) -> (room: Option<u64>)
        ensures
            room == (if self.size < self.limit { Some((self.limit - self.size) as u64) } else { None::<u64> }),
    {
        if self.size < self.limit {
            Some(self.limit - self.size)
        } else {
            None
        }
    }

    /// Adds the size of a file or of a scanned subdirectory; answers whether
    /// the scan is now past its limit and ends.
    pub fn add(&mut self, bytes: u64) -> (over: bool)
        requires
            old(self).size + bytes <= u64::MAX,
        ensures
            final(self).size == old(self).size + bytes,
            final(self).limit == old(self).limit,
            over == (final(self).size > final(self).limit),
    {
        self.size = self.size + bytes;
        self.size > self.limit
    }
}

} // verus!
