//! What the migration asks its driver to do, and what the driver answers.
//!
//! A [`Request`] names one observation or one change, with every path spelled
//! out in full: nothing depends on a working directory. A [`Reply`] tells
//! what came of it.

use crate::fstab::{entries_view, FstabEntry, FstabEntryView};
use crate::layout::within;
use crate::locate::{children_view, Child, ChildView};
use crate::outcome::MigrationOutcome;
use vstd::prelude::*;

verus! {

/// What stands at a path.
#[derive(Clone, Copy, Debug, PartialEq, Eq, Structural)]
pub enum PathKind {
    /// Nothing.
    Missing,
    /// An ordinary directory.
    Directory,
    /// A subvolume.
    Subvolume,
    /// Something else: a file, a link, a device.
    Other,
}

/// A message to the boot splash.
#[derive(Clone, Copy, Debug, PartialEq, Eq, Structural)]
pub enum Splash {
    /// Tell the onlooker that the migration runs.
    Announce,
    /// Step aside so that the console can be read.
    Hide,
    /// Come back after having stepped aside.
    Show,
    /// Leave for good, so that a failure stays in sight.
    Quit,
}

/// A merged view of a read-only lower tree and a writable upper tree.
#[derive(Clone, Debug, PartialEq, Eq)]
pub struct OverlayMount {
    pub lower: String,
    pub upper: String,
    pub work: String,
    pub mount_point: String,
}

/// An overlay as contracts see it.
pub struct OverlayMountView {
    pub lower: Seq<char>,
    pub upper: Seq<char>,
    pub work: Seq<char>,
    pub mount_point: Seq<char>,
}

impl View for OverlayMount {
    type V = OverlayMountView;

    open spec fn view(&self) -> OverlayMountView {
        OverlayMountView {
            lower: self.lower@,
            upper: self.upper@,
            work: self.work@,
            mount_point: self.mount_point@,
        }
    }
}

/// One thing for the driver to do.
#[derive(Clone, Debug, PartialEq, Eq)]
pub enum Request {
    /// Find out what stands at `path`. Answered by [`Reply::Kind`].
    Probe { path: String },
    /// Wait, for a bounded time, until devices have settled.
    Settle,
    /// Send a message to the boot splash.
    Splash { verb: Splash },
    /// Delete the subvolume at `path`; where `recursive`, the subvolumes
    /// below it first.
    DeleteSubvolume { path: String, recursive: bool },
    /// Create an empty subvolume at `path`.
    CreateSubvolume { path: String },
    /// Read the mount table at `path`. Answered by [`Reply::Entries`];
    /// [`Reply::Failed`] where the table is absent or cannot be read.
    ReadFstab { path: String },
    /// Explain to the operator that `concerning` entries of the old mount
    /// table will be dropped, with a pointer to further reading.
    Explain { concerning: usize },
    /// Ask the operator whether to go on. Answered by [`Reply::Answer`].
    Confirm,
    /// Restart the machine.
    Reboot,
    /// List the immediate children of `dir`, and say of each whether it holds
    /// a directory named `marker`. Answered by [`Reply::Children`];
    /// [`Reply::Failed`] where the directory cannot be read.
    Scan { dir: String, marker: String },
    /// Mount the overlay.
    Mount { overlay: OverlayMount },
    /// Copy the tree at `from` to `to`, keeping attributes and sharing blocks
    /// where the file system can.
    Copy { from: String, to: String },
    /// Release the mount at `mount_point`.
    Unmount { mount_point: String },
    /// Remove the directory at `path` with all that it holds.
    RemoveDirAll { path: String },
    /// Create the directory at `path` and the missing directories above it.
    CreateDirAll { path: String },
    /// Take a snapshot of the subvolume at `source` at `target`: one that
    /// shares its blocks with the source until either is written to. Where
    /// `recursive`, the subvolumes below `source` are snapshotted along with
    /// it; where `writable`, the snapshot can be written to.
    Snapshot { source: String, target: String, recursive: bool, writable: bool },
    /// Rename `from` to `to` in one step.
    Rename { from: String, to: String },
    /// Nothing is left to do: the run has ended with `outcome`.
    Finish { outcome: MigrationOutcome },
}

/// A request as contracts see it.
pub enum RequestView {
    Probe { path: Seq<char> },
    Settle,
    Splash { verb: Splash },
    DeleteSubvolume { path: Seq<char>, recursive: bool },
    CreateSubvolume { path: Seq<char> },
    ReadFstab { path: Seq<char> },
    Explain { concerning: usize },
    Confirm,
    Reboot,
    Scan { dir: Seq<char>, marker: Seq<char> },
    Mount { overlay: OverlayMountView },
    Copy { from: Seq<char>, to: Seq<char> },
    Unmount { mount_point: Seq<char> },
    RemoveDirAll { path: Seq<char> },
    CreateDirAll { path: Seq<char> },
    Snapshot { source: Seq<char>, target: Seq<char>, recursive: bool, writable: bool },
    Rename { from: Seq<char>, to: Seq<char> },
    Finish { outcome: MigrationOutcome },
}

impl View for Request {
    type V = RequestView;

    open spec fn view(&self) -> RequestView {
        match self {
            Request::Probe { path } => RequestView::Probe { path: path@ },
            Request::Settle => RequestView::Settle,
            Request::Splash { verb } => RequestView::Splash { verb: *verb },
            Request::DeleteSubvolume { path, recursive } => RequestView::DeleteSubvolume {
                path: path@,
                recursive: *recursive,
            },
            Request::CreateSubvolume { path } => RequestView::CreateSubvolume { path: path@ },
            Request::ReadFstab { path } => RequestView::ReadFstab { path: path@ },
            Request::Explain { concerning } => RequestView::Explain { concerning: *concerning },
            Request::Confirm => RequestView::Confirm,
            Request::Reboot => RequestView::Reboot,
            Request::Scan { dir, marker } => RequestView::Scan { dir: dir@, marker: marker@ },
            Request::Mount { overlay } => RequestView::Mount { overlay: overlay@ },
            Request::Copy { from, to } => RequestView::Copy { from: from@, to: to@ },
            Request::Unmount { mount_point } => RequestView::Unmount { mount_point: mount_point@ },
            Request::RemoveDirAll { path } => RequestView::RemoveDirAll { path: path@ },
            Request::CreateDirAll { path } => RequestView::CreateDirAll { path: path@ },
            Request::Snapshot { source, target, recursive, writable } => RequestView::Snapshot {
                source: source@,
                target: target@,
                recursive: *recursive,
                writable: *writable,
            },
            Request::Rename { from, to } => RequestView::Rename { from: from@, to: to@ },
            Request::Finish { outcome } => RequestView::Finish { outcome: *outcome },
        }
    }
}

impl RequestView {
    /// Whether carrying the request out changes anything: what is stored,
    /// what is mounted, or whether the machine keeps running. Observations,
    /// waiting and talk to the operator change nothing.
    pub open spec fn is_mutation(self) -> bool {
        match self {
            RequestView::DeleteSubvolume { .. }
            | RequestView::CreateSubvolume { .. }
            | RequestView::Reboot
            | RequestView::Mount { .. }
            | RequestView::Copy { .. }
            | RequestView::Unmount { .. }
            | RequestView::RemoveDirAll { .. }
            | RequestView::CreateDirAll { .. }
            | RequestView::Snapshot { .. }
            | RequestView::Rename { .. } => true,
            _ => false,
        }
    }

    /// The paths at which the request changes what is stored.
    pub open spec fn written(self) -> Seq<Seq<char>> {
        match self {
            RequestView::DeleteSubvolume { path, .. } => seq![path],
            RequestView::CreateSubvolume { path } => seq![path],
            RequestView::Copy { to, .. } => seq![to],
            RequestView::RemoveDirAll { path } => seq![path],
            RequestView::CreateDirAll { path } => seq![path],
            RequestView::Snapshot { target, .. } => seq![target],
            RequestView::Rename { from, to } => seq![from, to],
            _ => Seq::empty(),
        }
    }

    /// Whether the request leaves `place` and all below it as they are: it
    /// writes neither within `place` nor at a path that `place` lies within.
    pub open spec fn spares(self, place: Seq<char>) -> bool {
        forall|i: int|
            0 <= i < self.written().len() ==> !within(#[trigger] self.written()[i], place) && !within(
                place,
                self.written()[i],
            )
    }

    /// Whether the request leaves `place` in being: it writes neither at
    /// `place` nor at a path that `place` lies within. Writing below `place`
    /// is no objection.
    pub open spec fn keeps(self, place: Seq<char>) -> bool {
        forall|i: int| 0 <= i < self.written().len() ==> !within(place, #[trigger] self.written()[i])
    }

    /// Whether every path that the request writes lies within `place`.
    pub open spec fn confined_to(self, place: Seq<char>) -> bool {
        forall|i: int| 0 <= i < self.written().len() ==> within(#[trigger] self.written()[i], place)
    }
}

impl Request {
    /// Whether carrying the request out changes anything: what is stored,
    /// what is mounted, or whether the machine keeps running.
    pub fn changes_something(&self) -> (changes: bool)
        ensures
            changes == self@.is_mutation(),
    {
        match self {
            Request::DeleteSubvolume { .. }
            | Request::CreateSubvolume { .. }
            | Request::Reboot
            | Request::Mount { .. }
            | Request::Copy { .. }
            | Request::Unmount { .. }
            | Request::RemoveDirAll { .. }
            | Request::CreateDirAll { .. }
            | Request::Snapshot { .. }
            | Request::Rename { .. } => true,
            _ => false,
        }
    }
}

/// What came of a request.
#[derive(Clone, Debug, PartialEq, Eq)]
pub enum Reply {
    /// What a probe found.
    Kind(PathKind),
    /// The change was made; the command ended with success.
    Done,
    /// The change was not made; the command reported failure.
    Failed,
    /// The entries of the mount table.
    Entries(Vec<FstabEntry>),
    /// The children of the scanned directory.
    Children(Vec<Child>),
    /// The operator's answer.
    Answer(bool),
}

/// A reply as contracts see it.
pub enum ReplyView {
    Kind(PathKind),
    Done,
    Failed,
    Entries(Seq<FstabEntryView>),
    Children(Seq<ChildView>),
    Answer(bool),
}

impl View for Reply {
    type V = ReplyView;

    open spec fn view(&self) -> ReplyView {
        match self {
            Reply::Kind(kind) => ReplyView::Kind(*kind),
            Reply::Done => ReplyView::Done,
            Reply::Failed => ReplyView::Failed,
            Reply::Entries(entries) => ReplyView::Entries(entries_view(entries@)),
            Reply::Children(children) => ReplyView::Children(children_view(children@)),
            Reply::Answer(answer) => ReplyView::Answer(*answer),
        }
    }
}

/// The replies of a script as contracts see them.
pub open spec fn replies_view(replies: Seq<Reply>) -> Seq<ReplyView> {
    replies.map_values(|reply: Reply| reply@)
}

impl ReplyView {
    /// Whether the reply reports on a change or a command: done or failed.
    pub open spec fn is_status(self) -> bool {
        self is Done || self is Failed
    }
}

impl RequestView {
    /// Whether `reply` is an answer to this request.
    pub open spec fn answered_by(self, reply: ReplyView) -> bool {
        match self {
            RequestView::Probe { .. } => reply is Kind,
            RequestView::ReadFstab { .. } => reply is Entries || reply is Failed,
            RequestView::Scan { .. } => reply is Children || reply is Failed,
            RequestView::Confirm => reply is Answer,
            RequestView::Finish { .. } => false,
            _ => reply.is_status(),
        }
    }
}

} // verus!
