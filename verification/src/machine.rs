//! The migration as a state machine.
//!
//! A [`Migration`] is always waiting for the answer to one request. The
//! request follows from the state alone ([`Migration::request`]); the answer
//! moves the state on ([`Migration::advance`]). The order of the phases is the
//! order of the procedure: nothing is written before the final layout is seen
//! to be absent, everything is assembled under the staging name, one rename
//! promotes it, and only then are superseded paths set aside.

use crate::fstab::{assess, concerning_count};
use crate::layout::{
    archived, archived_path_of, final_path, final_path_of, fstab_path, fstab_path_of, marker_name,
    marker_of, staging_path, staging_path_of, Merged, Subvolume, Superseded,
};
use crate::locate::{locate, located, SourceLayout, SourceLayoutView};
use crate::outcome::{MigrationError, MigrationOutcome, Operation, Tool};
use crate::request::{
    replies_view, OverlayMount, OverlayMountView, PathKind, Reply, ReplyView, Request,
    RequestView, Splash,
};
use crate::run::{after, lemma_state_ends, lemma_state_step, state_at};
use crate::text::{join, joined, parent, parent_of};
use vstd::prelude::*;

verus! {

/// Where a migration stands: the request that is out, and what the answer
/// will be used for.
#[derive(Clone, Copy, Debug, PartialEq, Eq, Structural)]
pub enum Phase {
    /// Looking whether the final layout is already there.
    CheckFinal,
    /// Waiting for devices to settle.
    Settle,
    /// Telling the onlooker that a migration runs.
    Announce,
    /// Looking for a staging subvolume left by an earlier run.
    CheckStaging,
    /// Deleting the stale staging subvolume.
    PurgeStaging,
    /// Creating the staging subvolume.
    CreateStaging,
    /// Reading the old mount table.
    ReadFstab,
    /// Moving the splash aside before the operator is addressed.
    HideSplash { concerning: usize },
    /// Explaining the risk to the operator.
    Explain { concerning: usize },
    /// Asking the operator whether to go on.
    Confirm,
    /// Restarting the machine after the operator declined.
    Reboot,
    /// Scanning the root for a legacy layout.
    Scan,
    /// Mounting the merged view of a directory.
    Mount { dir: Merged },
    /// Copying the merged view into the new layout; the overlay is mounted.
    Copy { dir: Merged },
    /// Releasing the overlay, whether or not the copy went well.
    Unmount { dir: Merged, copied: bool },
    /// Looking at the place where a snapshot goes.
    ProbeTarget { volume: Subvolume },
    /// Removing the plain directory that stands in that place.
    RemoveTarget { volume: Subvolume },
    /// Looking whether the directory above that place exists.
    ProbeParent { volume: Subvolume },
    /// Creating the directories above that place.
    CreateParent { volume: Subvolume },
    /// Taking the snapshot.
    Snapshot { volume: Subvolume },
    /// Renaming the staging subvolume to its final name.
    Promote,
    /// Setting a superseded path aside.
    Archive { item: Superseded },
    /// Bringing the splash back after a success.
    ShowSplash { already: bool },
    /// Dismissing the splash so that the failure stays in sight.
    QuitSplash { error: MigrationError },
    /// The run has ended.
    Finished { outcome: MigrationOutcome },
}

impl Phase {
    /// Whether the staging subvolume has been promoted: the system has gone
    /// from migrating to migrated.
    pub open spec fn promoted(self) -> bool {
        match self {
            Phase::Archive { .. } => true,
            Phase::ShowSplash { already } => !already,
            Phase::Finished { outcome } => outcome is Migrated,
            _ => false,
        }
    }

    /// Whether an overlay is mounted in this phase.
    pub open spec fn holds_mount(self) -> bool {
        self is Copy || self is Unmount
    }

    /// Whether the run has ended.
    pub open spec fn terminal(self) -> bool {
        self is Finished
    }

    /// Whether the staging subvolume is being filled: it has been created
    /// and is not yet promoted, and the run has not been given up.
    pub open spec fn assembling(self) -> bool {
        match self {
            Phase::ReadFstab
            | Phase::HideSplash { .. }
            | Phase::Explain { .. }
            | Phase::Confirm
            | Phase::Reboot
            | Phase::Scan
            | Phase::Mount { .. }
            | Phase::Copy { .. }
            | Phase::Unmount { .. }
            | Phase::ProbeTarget { .. }
            | Phase::RemoveTarget { .. }
            | Phase::ProbeParent { .. }
            | Phase::CreateParent { .. }
            | Phase::Snapshot { .. }
            | Phase::Promote => true,
            _ => false,
        }
    }

    /// Whether the phase is a step that no migration can do without: the
    /// staging subvolume, each mount, copy and snapshot, the promotion, and
    /// each attempt to set a superseded path aside.
    pub open spec fn milestone(self) -> bool {
        match self {
            Phase::CreateStaging
            | Phase::Mount { .. }
            | Phase::Copy { .. }
            | Phase::Snapshot { .. }
            | Phase::Promote
            | Phase::Archive { .. } => true,
            _ => false,
        }
    }

    /// Whether a migration in this phase can still end as migrated by this
    /// run's own work.
    pub open spec fn on_track(self) -> bool {
        match self {
            Phase::QuitSplash { .. } => false,
            Phase::Finished { outcome } => outcome is Migrated,
            Phase::ShowSplash { already } => !already,
            Phase::Unmount { copied, .. } => copied,
            Phase::Reboot => false,
            _ => true,
        }
    }

    /// How far the procedure has come. Every answered request moves a
    /// migration to a phase of higher order; see
    /// [`crate::progress::lemma_every_answer_is_progress`].
    pub open spec fn order(self) -> nat {
        match self {
            Phase::CheckFinal => 0,
            Phase::Settle => 1,
            Phase::Announce => 2,
            Phase::CheckStaging => 3,
            Phase::PurgeStaging => 4,
            Phase::CreateStaging => 5,
            Phase::ReadFstab => 6,
            Phase::HideSplash { .. } => 7,
            Phase::Explain { .. } => 8,
            Phase::Confirm => 9,
            Phase::Reboot => 10,
            Phase::Scan => 11,
            Phase::Mount { dir } => 12 + 3 * dir.rank(),
            Phase::Copy { dir } => 13 + 3 * dir.rank(),
            Phase::Unmount { dir, .. } => 14 + 3 * dir.rank(),
            Phase::ProbeTarget { volume } => 18 + 5 * volume.rank(),
            Phase::RemoveTarget { volume } => 19 + 5 * volume.rank(),
            Phase::ProbeParent { volume } => 20 + 5 * volume.rank(),
            Phase::CreateParent { volume } => 21 + 5 * volume.rank(),
            Phase::Snapshot { volume } => 22 + 5 * volume.rank(),
            Phase::Promote => 43,
            Phase::Archive { item } => 44 + item.rank(),
            Phase::ShowSplash { .. } => 51,
            Phase::QuitSplash { .. } => 52,
            Phase::Finished { .. } => 53,
        }
    }
}

/// The order of the last phase.
pub open spec fn last_order() -> nat {
    53
}

/// A migration in progress.
#[derive(Debug)]
pub struct Migration {
    root: String,
    hint: Option<String>,
    source: Option<SourceLayout>,
    phase: Phase,
}

/// A migration as contracts see it.
pub struct MigrationView {
    /// The mounted root of the storage pool.
    pub root: Seq<char>,
    /// The read-only image mount that the caller named, if any.
    pub hint: Option<Seq<char>>,
    /// The layout that is migrated from, once it is known.
    pub source: Option<SourceLayoutView>,
    pub phase: Phase,
}

/// A migration that has not begun.
pub open spec fn initial(root: Seq<char>, hint: Option<Seq<char>>) -> MigrationView {
    MigrationView { root, hint, source: None, phase: Phase::CheckFinal }
}

impl MigrationView {
    /// Whether the migration has not begun: it is as [`initial`] makes it.
    pub open spec fn fresh(self) -> bool {
        self == initial(self.root, self.hint)
    }

    /// What holds of every migration that a run can reach: the old trees are
    /// known while they are read, and a directory above a snapshot's place is
    /// looked at only where the place has one inside the staging subvolume.
    pub open spec fn well_formed(self) -> bool {
        match self.phase {
            Phase::Mount { .. } | Phase::Copy { .. } | Phase::Unmount { .. } => self.source.is_some(),
            Phase::ProbeParent { volume } | Phase::CreateParent { volume } => parent_of(
                volume.spec_target(),
            ).is_some(),
            _ => true,
        }
    }

    /// The same migration in another phase.
    pub open spec fn at(self, phase: Phase) -> MigrationView {
        MigrationView { phase, ..self }
    }

    /// The same migration on its way to failing with `error`.
    pub open spec fn failing(self, error: MigrationError) -> MigrationView {
        self.at(Phase::QuitSplash { error })
    }

    /// The path of the staging subvolume.
    pub open spec fn staging(self) -> Seq<char> {
        staging_path(self.root)
    }

    /// The directory that holds the old trees; empty until a source is known.
    pub open spec fn base(self) -> Seq<char> {
        match self.source {
            Some(source) => source.base(),
            None => Seq::empty(),
        }
    }

    /// The old tree of `dir`, which is also where its merged view is mounted.
    pub open spec fn lower(self, dir: Merged) -> Seq<char> {
        joined(self.base(), dir.spec_name())
    }

    /// The overlay that merges the old tree of `dir` with what was written
    /// over it.
    pub open spec fn overlay(self, dir: Merged) -> OverlayMountView {
        OverlayMountView {
            lower: self.lower(dir),
            upper: joined(self.root, dir.spec_upper()),
            work: joined(self.root, dir.spec_work()),
            mount_point: self.lower(dir),
        }
    }

    /// Where `dir` goes in the new layout.
    pub open spec fn merged_target(self, dir: Merged) -> Seq<char> {
        joined(self.staging(), dir.spec_name())
    }

    /// Where the snapshot of `volume` goes in the new layout.
    pub open spec fn snapshot_target(self, volume: Subvolume) -> Seq<char> {
        joined(self.staging(), volume.spec_target())
    }

    /// The directory above the snapshot of `volume`: the staging subvolume
    /// itself where the snapshot goes directly below it.
    pub open spec fn snapshot_parent(self, volume: Subvolume) -> Seq<char> {
        match parent_of(volume.spec_target()) {
            Some(above) => joined(self.staging(), above),
            None => self.staging(),
        }
    }

    /// The phase that follows once the place for the snapshot is clear.
    pub open spec fn after_target(self, volume: Subvolume) -> Phase {
        if parent_of(volume.spec_target()).is_some() {
            Phase::ProbeParent { volume }
        } else {
            Phase::Snapshot { volume }
        }
    }

    /// The migration once its source is to be found: known at once where the
    /// caller named an image, else after a scan of the root.
    pub open spec fn locating(self) -> MigrationView {
        match self.hint {
            Some(mount) => MigrationView {
                source: Some(SourceLayoutView::Image { mount }),
                phase: Phase::Mount { dir: Merged::spec_first() },
                ..self
            },
            None => self.at(Phase::Scan),
        }
    }

    /// The request that is out.
    pub open spec fn request(self) -> RequestView {
        match self.phase {
            Phase::CheckFinal => RequestView::Probe { path: final_path(self.root) },
            Phase::Settle => RequestView::Settle,
            Phase::Announce => RequestView::Splash { verb: Splash::Announce },
            Phase::CheckStaging => RequestView::Probe { path: self.staging() },
            Phase::PurgeStaging => RequestView::DeleteSubvolume {
                path: self.staging(),
                recursive: true,
            },
            Phase::CreateStaging => RequestView::CreateSubvolume { path: self.staging() },
            Phase::ReadFstab => RequestView::ReadFstab { path: fstab_path(self.root) },
            Phase::HideSplash { concerning } => RequestView::Splash { verb: Splash::Hide },
            Phase::Explain { concerning } => RequestView::Explain { concerning },
            Phase::Confirm => RequestView::Confirm,
            Phase::Reboot => RequestView::Reboot,
            Phase::Scan => RequestView::Scan { dir: self.root, marker: marker_name() },
            Phase::Mount { dir } => RequestView::Mount { overlay: self.overlay(dir) },
            Phase::Copy { dir } => RequestView::Copy {
                from: self.lower(dir),
                to: self.merged_target(dir),
            },
            Phase::Unmount { dir, copied } => RequestView::Unmount { mount_point: self.lower(dir) },
            Phase::ProbeTarget { volume } => RequestView::Probe {
                path: self.snapshot_target(volume),
            },
            Phase::RemoveTarget { volume } => RequestView::RemoveDirAll {
                path: self.snapshot_target(volume),
            },
            Phase::ProbeParent { volume } => RequestView::Probe {
                path: self.snapshot_parent(volume),
            },
            Phase::CreateParent { volume } => RequestView::CreateDirAll {
                path: self.snapshot_parent(volume),
            },
            Phase::Snapshot { volume } => RequestView::Snapshot {
                source: joined(self.root, volume.spec_name()),
                target: self.snapshot_target(volume),
                recursive: true,
                writable: true,
            },
            Phase::Promote => RequestView::Rename {
                from: self.staging(),
                to: final_path(self.root),
            },
            Phase::Archive { item } => RequestView::Rename {
                from: joined(self.root, item.spec_name()),
                to: archived(joined(self.root, item.spec_name())),
            },
            Phase::ShowSplash { already } => RequestView::Splash { verb: Splash::Show },
            Phase::QuitSplash { error } => RequestView::Splash { verb: Splash::Quit },
            Phase::Finished { outcome } => RequestView::Finish { outcome },
        }
    }

    /// Whether `reply` answers the request that is out.
    pub open spec fn accepts(self, reply: ReplyView) -> bool {
        self.request().answered_by(reply)
    }

    /// The migration after `reply`, for a reply that answers the request.
    pub open spec fn advance(self, reply: ReplyView) -> MigrationView {
        match self.phase {
            Phase::CheckFinal => if reply == ReplyView::Kind(PathKind::Missing) {
                self.at(Phase::Settle)
            } else {
                self.at(Phase::ShowSplash { already: true })
            },
            Phase::Settle => self.at(Phase::Announce),
            Phase::Announce => self.at(Phase::CheckStaging),
            Phase::CheckStaging => if reply == ReplyView::Kind(PathKind::Missing) {
                self.at(Phase::CreateStaging)
            } else {
                self.at(Phase::PurgeStaging)
            },
            Phase::PurgeStaging => self.at(Phase::CreateStaging),
            Phase::CreateStaging => if reply is Done {
                self.at(Phase::ReadFstab)
            } else {
                self.failing(MigrationError::Filesystem(Operation::CreateStaging))
            },
            Phase::ReadFstab => {
                let concerning = match reply {
                    ReplyView::Entries(entries) => concerning_count(entries),
                    _ => 0,
                };
                if concerning == 0 {
                    self.locating()
                } else {
                    self.at(Phase::HideSplash { concerning: concerning as usize })
                }
            },
            Phase::HideSplash { concerning } => self.at(Phase::Explain { concerning }),
            Phase::Explain { concerning } => self.at(Phase::Confirm),
            Phase::Confirm => if reply == ReplyView::Answer(true) {
                self.locating()
            } else {
                self.at(Phase::Reboot)
            },
            Phase::Reboot => self.failing(MigrationError::UserDeclined),
            Phase::Scan => match reply {
                ReplyView::Children(children) => match located(self.root, children) {
                    Some(source) => MigrationView {
                        source: Some(source),
                        phase: Phase::Mount { dir: Merged::spec_first() },
                        ..self
                    },
                    None => self.failing(MigrationError::SourceNotFound),
                },
                _ => self.failing(MigrationError::SourceNotFound),
            },
            Phase::Mount { dir } => if reply is Done {
                self.at(Phase::Copy { dir })
            } else {
                self.failing(MigrationError::Command(Tool::Mount(dir)))
            },
            Phase::Copy { dir } => self.at(Phase::Unmount { dir, copied: reply is Done }),
            Phase::Unmount { dir, copied } => if !copied {
                self.failing(MigrationError::Command(Tool::Copy(dir)))
            } else {
                match dir.spec_next() {
                    Some(following) => self.at(Phase::Mount { dir: following }),
                    None => self.at(Phase::ProbeTarget { volume: Subvolume::spec_first() }),
                }
            },
            Phase::ProbeTarget { volume } => if reply == ReplyView::Kind(PathKind::Directory) {
                self.at(Phase::RemoveTarget { volume })
            } else {
                self.at(self.after_target(volume))
            },
            Phase::RemoveTarget { volume } => if reply is Done {
                self.at(self.after_target(volume))
            } else {
                self.failing(MigrationError::Filesystem(Operation::RemoveTarget(volume)))
            },
            Phase::ProbeParent { volume } => if reply == ReplyView::Kind(PathKind::Missing) {
                self.at(Phase::CreateParent { volume })
            } else {
                self.at(Phase::Snapshot { volume })
            },
            Phase::CreateParent { volume } => if reply is Done {
                self.at(Phase::Snapshot { volume })
            } else {
                self.failing(MigrationError::Filesystem(Operation::CreateParent(volume)))
            },
            Phase::Snapshot { volume } => if reply is Done {
                match volume.spec_next() {
                    Some(following) => self.at(Phase::ProbeTarget { volume: following }),
                    None => self.at(Phase::Promote),
                }
            } else {
                self.failing(MigrationError::Filesystem(Operation::Snapshot(volume)))
            },
            Phase::Promote => if reply is Done {
                self.at(Phase::Archive { item: Superseded::spec_first() })
            } else {
                self.failing(MigrationError::Filesystem(Operation::Promote))
            },
            Phase::Archive { item } => match item.spec_next() {
                Some(following) => self.at(Phase::Archive { item: following }),
                None => self.at(Phase::ShowSplash { already: false }),
            },
            Phase::ShowSplash { already } => self.at(
                Phase::Finished {
                    outcome: if already {
                        MigrationOutcome::AlreadyMigrated
                    } else {
                        MigrationOutcome::Migrated
                    },
                },
            ),
            Phase::QuitSplash { error } => self.at(
                Phase::Finished { outcome: MigrationOutcome::Failed(error) },
            ),
            Phase::Finished { outcome } => self,
        }
    }

    /// The migration after `reply`: moved on where the reply answers the
    /// request, unchanged where it does not.
    pub open spec fn step(self, reply: ReplyView) -> MigrationView {
        if self.accepts(reply) {
            self.advance(reply)
        } else {
            self
        }
    }

    /// How the run ended, once it has.
    pub open spec fn outcome(self) -> Option<MigrationOutcome> {
        match self.phase {
            Phase::Finished { outcome } => Some(outcome),
            _ => None,
        }
    }
}

impl View for Migration {
    type V = MigrationView;

    closed spec fn view(&self) -> MigrationView {
        MigrationView {
            root: self.root@,
            hint: match self.hint {
                Some(mount) => Some(mount@),
                None => None,
            },
            source: match self.source {
                Some(source) => Some(source@),
                None => None,
            },
            phase: self.phase,
        }
    }
}

impl Migration {
    /// A migration as a command line asks for it. The arguments are the
    /// program's name, the mounted root of the pool and, optionally, a
    /// read-only image mount to read the old trees from; further arguments
    /// are not looked at. Fewer than two is an error.
    pub fn from_arguments(args: &Vec<String>) -> (migration: Result<Migration, MigrationError>)
        ensures
            migration is Err <==> args@.len() < 2,
            migration matches Err(error) ==> error == MigrationError::Argument,
            migration matches Ok(begun) ==> begun@ == initial(
                args@[1]@,
                if args@.len() >= 3 {
                    Some(args@[2]@)
                } else {
                    None
                },
            ),
    {
        if args.len() < 2 {
            return Err(MigrationError::Argument);
        }
        let hint = if args.len() >= 3 {
            Some(args[2].clone())
        } else {
            None
        };
        Ok(Migration::new(args[1].clone(), hint))
    }

    /// A migration of the pool mounted at `root`. With a `hint`, the old
    /// trees are read from that image mount; without one, the root is
    /// scanned for a legacy layout.
    pub fn new(root: String, hint: Option<String>) -> (migration: Migration)
        ensures
            migration@ == initial(
                root@,
                match hint {
                    Some(mount) => Some(mount@),
                    None => None,
                },
            ),
    {
        Migration { root, hint, source: None, phase: Phase::CheckFinal }
    }

    /// The phase that the migration is in.
    pub fn phase(&self) -> (phase: Phase)
        ensures
            phase == self@.phase,
    {
        self.phase
    }

    /// How the run ended, once it has.
    pub fn outcome(&self) -> (outcome: Option<MigrationOutcome>)
        ensures
            outcome == self@.outcome(),
    {
        match self.phase {
            Phase::Finished { outcome } => Some(outcome),
            _ => None,
        }
    }

    /// The path of the staging subvolume.
    pub fn staging(&self) -> (path: String)
        ensures
            path@ == self@.staging(),
    {
        staging_path_of(self.root.as_str())
    }

    /// The directory that holds the old trees; empty until a source is known.
    fn base(&self) -> (path: &str)
        ensures
            path@ == self@.base(),
    {
        match &self.source {
            Some(source) => source.base(),
            None => {
                proof {
                    reveal_strlit("");
                    assert(""@ =~= Seq::<char>::empty());
                }
                ""
            },
        }
    }

    /// The old tree of `dir`.
    fn lower(&self, dir: Merged) -> (path: String)
        ensures
            path@ == self@.lower(dir),
    {
        join(self.base(), dir.name())
    }

    /// The overlay that merges the old tree of `dir` with what was written
    /// over it.
    pub fn overlay(&self, dir: Merged) -> (overlay: OverlayMount)
        ensures
            overlay@ == self@.overlay(dir),
    {
        OverlayMount {
            lower: self.lower(dir),
            upper: join(self.root.as_str(), dir.upper()),
            work: join(self.root.as_str(), dir.work()),
            mount_point: self.lower(dir),
        }
    }

    /// The overlay that is mounted at present, if one is. A driver that has
    /// to give up in the middle of a run releases this mount.
    pub fn held_overlay(&self) -> (held: Option<OverlayMount>)
        ensures
            held is Some <==> self@.phase.holds_mount(),
            self@.phase matches Phase::Copy { dir } ==> held matches Some(overlay) && overlay@
                == self@.overlay(dir),
            self@.phase matches Phase::Unmount { dir, .. } ==> held matches Some(overlay)
                && overlay@ == self@.overlay(dir),
    {
        match self.phase {
            Phase::Copy { dir } => Some(self.overlay(dir)),
            Phase::Unmount { dir, .. } => Some(self.overlay(dir)),
            _ => None,
        }
    }

    /// Where the snapshot of `volume` goes in the new layout.
    fn snapshot_target(&self, volume: Subvolume) -> (path: String)
        ensures
            path@ == self@.snapshot_target(volume),
    {
        let staging = self.staging();
        join(staging.as_str(), volume.target())
    }

    /// The directory above the snapshot of `volume`; the staging subvolume
    /// itself where the snapshot goes directly below it.
    fn snapshot_parent(&self, volume: Subvolume) -> (path: String)
        ensures
            path@ == self@.snapshot_parent(volume),
    {
        let staging = self.staging();
        match parent(volume.target()) {
            Some(above) => join(staging.as_str(), above.as_str()),
            None => staging,
        }
    }

    /// The phase that follows once the place for the snapshot is clear.
    fn after_target(&self, volume: Subvolume) -> (phase: Phase)
        ensures
            phase == self@.after_target(volume),
    {
        if parent(volume.target()).is_some() {
            Phase::ProbeParent { volume }
        } else {
            Phase::Snapshot { volume }
        }
    }

    /// The request that is out: what the driver is to do next.
    pub fn request(&self) -> (request: Request)
        ensures
            request@ == self@.request(),
    {
        let root = self.root.as_str();
        match self.phase {
            Phase::CheckFinal => Request::Probe { path: final_path_of(root) },
            Phase::Settle => Request::Settle,
            Phase::Announce => Request::Splash { verb: Splash::Announce },
            Phase::CheckStaging => Request::Probe { path: self.staging() },
            Phase::PurgeStaging => Request::DeleteSubvolume {
                path: self.staging(),
                recursive: true,
            },
            Phase::CreateStaging => Request::CreateSubvolume { path: self.staging() },
            Phase::ReadFstab => Request::ReadFstab { path: fstab_path_of(root) },
            Phase::HideSplash { concerning } => Request::Splash { verb: Splash::Hide },
            Phase::Explain { concerning } => Request::Explain { concerning },
            Phase::Confirm => Request::Confirm,
            Phase::Reboot => Request::Reboot,
            Phase::Scan => Request::Scan { dir: self.root.clone(), marker: marker_of() },
            Phase::Mount { dir } => Request::Mount { overlay: self.overlay(dir) },
            Phase::Copy { dir } => {
                let staging = self.staging();
                Request::Copy { from: self.lower(dir), to: join(staging.as_str(), dir.name()) }
            },
            Phase::Unmount { dir, copied } => Request::Unmount { mount_point: self.lower(dir) },
            Phase::ProbeTarget { volume } => Request::Probe { path: self.snapshot_target(volume) },
            Phase::RemoveTarget { volume } => Request::RemoveDirAll {
                path: self.snapshot_target(volume),
            },
            Phase::ProbeParent { volume } => Request::Probe { path: self.snapshot_parent(volume) },
            Phase::CreateParent { volume } => Request::CreateDirAll {
                path: self.snapshot_parent(volume),
            },
            Phase::Snapshot { volume } => Request::Snapshot {
                source: join(root, volume.name()),
                target: self.snapshot_target(volume),
                recursive: true,
                writable: true,
            },
            Phase::Promote => Request::Rename { from: self.staging(), to: final_path_of(root) },
            Phase::Archive { item } => {
                let original = join(root, item.name());
                let aside = archived_path_of(original.as_str());
                Request::Rename { from: original, to: aside }
            },
            Phase::ShowSplash { already } => Request::Splash { verb: Splash::Show },
            Phase::QuitSplash { error } => Request::Splash { verb: Splash::Quit },
            Phase::Finished { outcome } => Request::Finish { outcome },
        }
    }

    /// Takes the answer to the request that is out. A reply that answers it
    /// moves the migration on; any other reply is turned down and changes
    /// nothing.
    pub fn advance(&mut self, reply: &Reply) -> (accepted: bool)
        ensures
            accepted == old(self)@.accepts(reply@),
            final(self)@ == old(self)@.step(reply@),
    {
        let next: Phase = match (self.phase, reply) {
            (Phase::CheckFinal, Reply::Kind(kind)) => match kind {
                PathKind::Missing => Phase::Settle,
                _ => Phase::ShowSplash { already: true },
            },
            (Phase::Settle, Reply::Done) | (Phase::Settle, Reply::Failed) => Phase::Announce,
            (Phase::Announce, Reply::Done) | (Phase::Announce, Reply::Failed) => Phase::CheckStaging,
            (Phase::CheckStaging, Reply::Kind(kind)) => match kind {
                PathKind::Missing => Phase::CreateStaging,
                _ => Phase::PurgeStaging,
            },
            (Phase::PurgeStaging, Reply::Done) | (Phase::PurgeStaging, Reply::Failed) =>
                Phase::CreateStaging,
            (Phase::CreateStaging, Reply::Done) => Phase::ReadFstab,
            (Phase::CreateStaging, Reply::Failed) => Phase::QuitSplash {
                error: MigrationError::Filesystem(Operation::CreateStaging),
            },
            (Phase::ReadFstab, Reply::Entries(entries)) => {
                let concerning = assess(entries);
                if concerning == 0 {
                    return self.locate();
                }
                Phase::HideSplash { concerning }
            },
            (Phase::ReadFstab, Reply::Failed) => {
                return self.locate();
            },
            (Phase::HideSplash { concerning }, Reply::Done)
            | (Phase::HideSplash { concerning }, Reply::Failed) => Phase::Explain { concerning },
            (Phase::Explain { concerning }, Reply::Done)
            | (Phase::Explain { concerning }, Reply::Failed) => Phase::Confirm,
            (Phase::Confirm, Reply::Answer(go_on)) => {
                if *go_on {
                    return self.locate();
                }
                Phase::Reboot
            },
            (Phase::Reboot, Reply::Done) | (Phase::Reboot, Reply::Failed) => Phase::QuitSplash {
                error: MigrationError::UserDeclined,
            },
            (Phase::Scan, Reply::Children(children)) => {
                match locate(self.root.as_str(), children) {
                    Some(source) => {
                        self.source = Some(source);
                        Phase::Mount { dir: Merged::first() }
                    },
                    None => Phase::QuitSplash { error: MigrationError::SourceNotFound },
                }
            },
            (Phase::Scan, Reply::Failed) => Phase::QuitSplash {
                error: MigrationError::SourceNotFound,
            },
            (Phase::Mount { dir }, Reply::Done) => Phase::Copy { dir },
            (Phase::Mount { dir }, Reply::Failed) => Phase::QuitSplash {
                error: MigrationError::Command(Tool::Mount(dir)),
            },
            (Phase::Copy { dir }, Reply::Done) => Phase::Unmount { dir, copied: true },
            (Phase::Copy { dir }, Reply::Failed) => Phase::Unmount { dir, copied: false },
            (Phase::Unmount { dir, copied }, Reply::Done)
            | (Phase::Unmount { dir, copied }, Reply::Failed) => {
                if !copied {
                    Phase::QuitSplash { error: MigrationError::Command(Tool::Copy(dir)) }
                } else {
                    match dir.next() {
                        Some(following) => Phase::Mount { dir: following },
                        None => Phase::ProbeTarget { volume: Subvolume::first() },
                    }
                }
            },
            (Phase::ProbeTarget { volume }, Reply::Kind(kind)) => match kind {
                PathKind::Directory => Phase::RemoveTarget { volume },
                _ => self.after_target(volume),
            },
            (Phase::RemoveTarget { volume }, Reply::Done) => self.after_target(volume),
            (Phase::RemoveTarget { volume }, Reply::Failed) => Phase::QuitSplash {
                error: MigrationError::Filesystem(Operation::RemoveTarget(volume)),
            },
            (Phase::ProbeParent { volume }, Reply::Kind(kind)) => match kind {
                PathKind::Missing => Phase::CreateParent { volume },
                _ => Phase::Snapshot { volume },
            },
            (Phase::CreateParent { volume }, Reply::Done) => Phase::Snapshot { volume },
            (Phase::CreateParent { volume }, Reply::Failed) => Phase::QuitSplash {
                error: MigrationError::Filesystem(Operation::CreateParent(volume)),
            },
            (Phase::Snapshot { volume }, Reply::Done) => match volume.next() {
                Some(following) => Phase::ProbeTarget { volume: following },
                None => Phase::Promote,
            },
            (Phase::Snapshot { volume }, Reply::Failed) => Phase::QuitSplash {
                error: MigrationError::Filesystem(Operation::Snapshot(volume)),
            },
            (Phase::Promote, Reply::Done) => Phase::Archive { item: Superseded::first() },
            (Phase::Promote, Reply::Failed) => Phase::QuitSplash {
                error: MigrationError::Filesystem(Operation::Promote),
            },
            (Phase::Archive { item }, Reply::Done) | (Phase::Archive { item }, Reply::Failed) => {
                match item.next() {
                    Some(following) => Phase::Archive { item: following },
                    None => Phase::ShowSplash { already: false },
                }
            },
            (Phase::ShowSplash { already }, Reply::Done)
            | (Phase::ShowSplash { already }, Reply::Failed) => Phase::Finished {
                outcome: if already {
                    MigrationOutcome::AlreadyMigrated
                } else {
                    MigrationOutcome::Migrated
                },
            },
            (Phase::QuitSplash { error }, Reply::Done)
            | (Phase::QuitSplash { error }, Reply::Failed) => Phase::Finished {
                outcome: MigrationOutcome::Failed(error),
            },
            _ => {
                return false;
            },
        };
        self.phase = next;
        true
    }

    /// Feeds `replies` to the migration in order, as [`Migration::advance`]
    /// would take them, and returns the request that each reply was given
    /// to: a run against a script in place of a driver.
    pub fn replay(&mut self, replies: &Vec<Reply>) -> (requests: Vec<Request>)
        ensures
            final(self)@ == after(old(self)@, replies_view(replies@)),
            requests@.len() == replies@.len(),
            forall|n: int|
                0 <= n < replies@.len() ==> (#[trigger] requests@[n])@ == state_at(
                    old(self)@,
                    replies_view(replies@),
                    n,
                ).request(),
    {
        let ghost script = replies_view(replies@);
        let mut requests: Vec<Request> = Vec::new();
        let mut i: usize = 0;
        proof {
            lemma_state_ends(self@, script);
        }
        while i < replies.len()
            invariant
                i <= replies.len(),
                script == replies_view(replies@),
                self@ == state_at(old(self)@, script, i as int),
                requests@.len() == i,
                forall|n: int|
                    0 <= n < i ==> (#[trigger] requests@[n])@ == state_at(
                        old(self)@,
                        script,
                        n,
                    ).request(),
            decreases replies.len() - i,
        {
            requests.push(self.request());
            proof {
                lemma_state_step(old(self)@, script, i as int);
                assert(script[i as int] == replies@[i as int]@);
            }
            self.advance(&replies[i]);
            i += 1;
        }
        proof {
            lemma_state_ends(old(self)@, script);
        }
        requests
    }

    /// Turns to finding the source: see [`MigrationView::locating`].
    fn locate(&mut self) -> (accepted: bool)
        ensures
            accepted,
            final(self)@ == old(self)@.locating(),
    {
        match &self.hint {
            Some(mount) => {
                self.source = Some(SourceLayout::Image { mount: mount.clone() });
                self.phase = Phase::Mount { dir: Merged::first() };
            },
            None => {
                self.phase = Phase::Scan;
            },
        }
        true
    }
}

} // verus!
