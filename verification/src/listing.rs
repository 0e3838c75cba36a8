//! The directory-listing collaborator: a stateful iterator over directory
//! entries.
//!
//! The listing here is the verified model of an open directory handle: it
//! holds the entry sequence the operating system will report, in OS order,
//! and steps through it exactly as the real handle does — one entry per
//! call, then end-of-directory, with an idempotent close. The unverified
//! shell reads real entries lazily from the OS and classifies each through
//! `entry_kind_of` and `open_error_for`.

use vstd::prelude::*;

verus! {

/// The kind of one directory entry.
#[derive(Clone, Copy, Debug, PartialEq, Eq, Structural)]
pub enum EntryKind {
    File,
    Directory,
    Symlink,
    Other,
}

/// One directory entry: its name and its kind.
#[derive(Clone, Debug, PartialEq, Eq)]
pub struct Entry {
    pub name: String,
    pub kind: EntryKind,
}

/// Why opening a directory failed.
#[derive(Clone, Copy, Debug, PartialEq, Eq, Structural)]
pub enum OpenError {
    NotFound,
    PermissionDenied,
    NotADirectory,
    IoError,
}

/// The class of an I/O failure, as the shell reads it off the OS error.
#[derive(Clone, Copy, Debug, PartialEq, Eq, Structural)]
pub enum IoErrorClass {
    NotFound,
    PermissionDenied,
    NotADirectory,
    Other,
}

/// What one read of the listing produced.
#[derive(Clone, Debug, PartialEq, Eq)]
pub enum ReadOutcome {
    /// The next entry, in OS-reported order.
    Entry(Entry),
    /// The listing is exhausted; this is a normal terminal signal, not an
    /// error.
    EndOfDirectory,
    /// The handle was already closed; reading it is not an error either.
    AlreadyClosed,
}

/// The kind of an entry from what the OS says of its file type, with the
/// file test first, then directory, then symlink; anything else — including
/// a failed type lookup — is `Other`.
pub fn entry_kind_of(is_file: bool, is_dir: bool, is_symlink: bool) -> (k: EntryKind)
    ensures
        k == (if is_file {
            EntryKind::File
        } else if is_dir {
            EntryKind::Directory
        } else if is_symlink {
            EntryKind::Symlink
        } else {
            EntryKind::Other
        }),
{
    if is_file {
        EntryKind::File
    } else if is_dir {
        EntryKind::Directory
    } else if is_symlink {
        EntryKind::Symlink
    } else {
        EntryKind::Other
    }
}

/// The open error reported for an I/O failure: the three recognized classes
/// keep their names; everything else is a generic I/O error.
pub fn open_error_for(class: IoErrorClass) -> (e: OpenError)
    ensures
        e == (match class {
            IoErrorClass::NotFound => OpenError::NotFound,
            IoErrorClass::PermissionDenied => OpenError::PermissionDenied,
            IoErrorClass::NotADirectory => OpenError::NotADirectory,
            IoErrorClass::Other => OpenError::IoError,
        }),
{
    match class {
        IoErrorClass::NotFound => OpenError::NotFound,
        IoErrorClass::PermissionDenied => OpenError::PermissionDenied,
        IoErrorClass::NotADirectory => OpenError::NotADirectory,
        IoErrorClass::Other => OpenError::IoError,
    }
}

/// An open directory handle over a fixed entry sequence: entries come back
/// one per `next` call, in order, without sorting; the listing is finite and
/// not restartable once exhausted.
pub struct DirectoryListing {
    entries: Vec<Entry>,
    pos: usize,
    open: bool,
}

impl DirectoryListing {
    /// The entries this listing will report, in order.
    pub closed spec fn entries(self) -> Seq<Entry> {
        self.entries@
    }

    /// How many entries have been consumed.
    pub closed spec fn pos(self) -> int {
        self.pos as int
    }

    /// Whether the handle is still open.
    pub closed spec fn is_open(self) -> bool {
        self.open
    }

    /// A listing never steps past its entries.
    pub closed spec fn wf(self) -> bool {
        self.pos <= self.entries@.len()
    }

    /// Open a listing over the given entries, positioned at the first.
    pub fn open(entries: Vec<Entry>) -> (l: Self)
        ensures
            l.wf(),
            l.is_open(),
            l.entries() == entries@,
            l.pos() == 0,
    {
        DirectoryListing { entries, pos: 0, open: true }
    }

    /// Read the next entry: each call yields the next entry in order until
    /// the listing is exhausted, then `EndOfDirectory`; a closed handle
    /// yields `AlreadyClosed` and consumes nothing.
    pub fn next(&mut self) -> (r: ReadOutcome)
        requires
            old(self).wf(),
        ensures
            final(self).wf(),
            final(self).entries() == old(self).entries(),
            final(self).is_open() == old(self).is_open(),
            !old(self).is_open() ==> r == ReadOutcome::AlreadyClosed && final(self).pos() == old(
                self,
            ).pos(),
            old(self).is_open() && old(self).pos() < old(self).entries().len() ==> r
                == ReadOutcome::Entry(old(self).entries()[old(self).pos()]) && final(self).pos()
                == old(self).pos() + 1,
            old(self).is_open() && old(self).pos() == old(self).entries().len() ==> r
                == ReadOutcome::EndOfDirectory && final(self).pos() == old(self).pos(),
    {
        if !self.open {
            ReadOutcome::AlreadyClosed
        } else if self.pos < self.entries.len() {
            let e = Entry {
                name: self.entries[self.pos].name.clone(),
                kind: self.entries[self.pos].kind,
            };
            self.pos = self.pos + 1;
            ReadOutcome::Entry(e)
        } else {
            ReadOutcome::EndOfDirectory
        }
    }

    /// Close the handle. Idempotent: closing an already-closed listing
    /// succeeds and changes nothing further.
    pub fn close(&mut self)
        requires
            old(self).wf(),
        ensures
            final(self).wf(),
            !final(self).is_open(),
            final(self).entries() == old(self).entries(),
            final(self).pos() == old(self).pos(),
    {
        self.open = false;
    }
}

} // verus!
