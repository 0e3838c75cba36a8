//! Symbolic filesystem-change event kinds and the events delivered to a
//! caller.

use vstd::prelude::*;

verus! {

/// A symbolic filesystem-change category.
///
/// The first ten kinds may be requested when registering a watch. The kernel
/// can additionally report `WatchRemoved` (the watch itself went away) and
/// `IsDir` (the subject is a directory); `Unknown` stands for a reported mask
/// in which no recognized bit is set.
#[derive(Clone, Copy, Debug, PartialEq, Eq, Structural)]
pub enum EventKind {
    Create,
    Modify,
    Delete,
    MovedFrom,
    MovedTo,
    Access,
    Attrib,
    CloseWrite,
    CloseNoWrite,
    Open,
    WatchRemoved,
    IsDir,
    Unknown,
}

/// One translated filesystem-change notification, as delivered to the caller.
///
/// `filename` may be empty when the kernel supplies no name; `kinds` is never
/// empty.
#[derive(Clone, Debug, PartialEq, Eq)]
pub struct FilesystemEvent {
    pub filename: String,
    pub kinds: Vec<EventKind>,
}

/// The mathematical model of a delivered event: the filename as a character
/// sequence and the kinds as a sequence.
pub ghost struct EventModel {
    pub filename: Seq<char>,
    pub kinds: Seq<EventKind>,
}

impl View for FilesystemEvent {
    type V = EventModel;

    open spec fn view(&self) -> EventModel {
        EventModel { filename: self.filename@, kinds: self.kinds@ }
    }
}

impl FilesystemEvent {
    /// A delivered event always names at least one kind.
    pub open spec fn wf(self) -> bool {
        self.kinds@.len() >= 1
    }
}

/// One raw kernel-reported change: the name the kernel supplied (empty when
/// it supplied none) and the reported result mask.
#[derive(Clone, Debug, PartialEq, Eq)]
pub struct RawEvent {
    pub filename: String,
    pub mask: u32,
}

} // verus!
