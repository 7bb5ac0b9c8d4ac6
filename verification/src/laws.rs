//! What holds of every run.
//!
//! A run is a fresh migration that is fed a sequence of replies. The
//! statements below hold of all such sequences: whatever the driver finds on
//! disk, whichever commands fail, whatever the operator answers. They speak
//! of the requests that a migration makes and of the replies it was given;
//! what a request does to the disk is the driver's part.

use crate::fstab::concerning_count;
use crate::layout::{
    final_path, lemma_below_is_apart, lemma_joined_to_staging_is_below, lemma_rank_determines_item,
    lemma_ranks_count_up, lemma_staging_contents_apart_from_final,
    lemma_superseded_apart_from_final, staging_path, within, Merged, Subvolume, Superseded,
};
use crate::machine::{MigrationView, Phase};
use crate::outcome::{MigrationError, MigrationOutcome, Operation};
use crate::progress::{
    lemma_every_answer_is_progress, lemma_milestones_in_order, lemma_order_is_bounded,
    lemma_order_never_falls, passed,
};
use crate::request::{PathKind, ReplyView, RequestView, Splash};
use crate::run::{
    after, exchanged, lemma_root_is_fixed, lemma_runs_stay_well_formed, lemma_state_ends,
    lemma_state_of_prefix, lemma_state_step, state_at, tally,
};
use crate::text::{joined, parent_of};
use vstd::prelude::*;

verus! {

// Idempotence

/// Whether a migration in `phase` has found the final layout in place.
pub open spec fn short_circuited(phase: Phase) -> bool {
    phase == (Phase::ShowSplash { already: true }) || phase == (Phase::Finished {
        outcome: MigrationOutcome::AlreadyMigrated,
    })
}

/// Where the first look finds the final layout in place, all that is left of
/// the run is to bring the splash back and to end as already migrated.
proof fn lemma_short_circuit(start: MigrationView, replies: Seq<ReplyView>, n: int)
    requires
        start.fresh(),
        1 <= n <= replies.len(),
        replies[0] is Kind,
        replies[0] != ReplyView::Kind(PathKind::Missing),
    ensures
        short_circuited(state_at(start, replies, n).phase),
    decreases n,
{
    lemma_state_ends(start, replies);
    lemma_state_step(start, replies, n - 1);
    if n >= 2 {
        lemma_short_circuit(start, replies, n - 1);
    }
}

/// Idempotence. Where the first look finds the final layout in place, the
/// run asks for no change of any kind, whatever else it is told; it cannot
/// end but as already migrated, and the next answer ends it so.
pub proof fn lemma_present_final_is_left_alone(start: MigrationView, replies: Seq<ReplyView>)
    requires
        start.fresh(),
        replies.len() > 0,
        replies[0] is Kind,
        replies[0] != ReplyView::Kind(PathKind::Missing),
    ensures
        forall|n: int|
            0 <= n <= replies.len() ==> !(#[trigger] state_at(
                start,
                replies,
                n,
            )).request().is_mutation(),
        after(start, replies).outcome() is Some ==> after(start, replies).outcome() == Some(
            MigrationOutcome::AlreadyMigrated,
        ),
        start.step(replies[0]).step(ReplyView::Done).outcome() == Some(
            MigrationOutcome::AlreadyMigrated,
        ),
        start.step(replies[0]).step(ReplyView::Failed).outcome() == Some(
            MigrationOutcome::AlreadyMigrated,
        ),
{
    lemma_state_ends(start, replies);
    assert forall|n: int| 0 <= n <= replies.len() implies !(#[trigger] state_at(
        start,
        replies,
        n,
    )).request().is_mutation() by {
        if n >= 1 {
            lemma_short_circuit(start, replies, n);
        }
    }
    lemma_short_circuit(start, replies, replies.len() as int);
}

// Atomicity

/// Whether reply `n` of a run did the final path no harm: the request it
/// answered writes nowhere near the final path, or was the promotion and
/// failed.
pub open spec fn harmless_at(start: MigrationView, replies: Seq<ReplyView>, n: int) -> bool {
    let state = state_at(start, replies, n);
    exchanged(start, replies, n) ==> state.request().spares(final_path(state.root)) || (state.phase
        is Promote && replies[n] is Failed)
}

/// Whether reply `n` of a run left the staging subvolume in being: the
/// request it answered writes at most below the staging path, or was the
/// promotion and failed.
pub open spec fn keeps_staging_at(start: MigrationView, replies: Seq<ReplyView>, n: int) -> bool {
    let state = state_at(start, replies, n);
    exchanged(start, replies, n) ==> state.request().keeps(state.staging()) || (state.phase
        is Promote && replies[n] is Failed)
}

/// Whether reply `n` of a run reports that the staging subvolume was created.
pub open spec fn created_staging_at(start: MigrationView, replies: Seq<ReplyView>, n: int) -> bool {
    state_at(start, replies, n).phase is CreateStaging && replies[n] is Done
}

/// Whether a migration in `phase` has a staging subvolume to show: it is
/// filling one, or gave up while filling one.
pub open spec fn staged(phase: Phase) -> bool {
    ||| phase.assembling()
    ||| phase matches Phase::QuitSplash { error } && error != MigrationError::Filesystem(
        Operation::CreateStaging,
    )
    ||| phase matches Phase::Finished { outcome: MigrationOutcome::Failed(error) } && error
        != MigrationError::Filesystem(Operation::CreateStaging)
}

/// What a migration writes while it fills the staging subvolume lies below
/// the staging path.
proof fn lemma_assembly_writes_below_staging(state: MigrationView, i: int)
    requires
        state.phase matches Phase::CreateParent { volume } ==> parent_of(
            volume.spec_target(),
        ) is Some,
        !state.phase.promoted(),
        !(state.phase is Promote),
        !(state.phase is PurgeStaging),
        !(state.phase is CreateStaging),
        0 <= i < state.request().written().len(),
    ensures
        crate::layout::below(state.request().written()[i], state.staging()),
{
    match state.phase {
        Phase::Copy { dir } => {
            lemma_joined_to_staging_is_below(state.root, dir.spec_name());
        },
        Phase::RemoveTarget { volume } | Phase::Snapshot { volume } => {
            lemma_joined_to_staging_is_below(state.root, volume.spec_target());
        },
        Phase::CreateParent { volume } => {
            lemma_joined_to_staging_is_below(state.root, parent_of(volume.spec_target()).unwrap());
        },
        _ => {},
    }
}

/// Until the promotion, every request but the promotion itself writes within
/// the staging path only, and so nowhere near the final path.
pub proof fn lemma_unpromoted_request_spares_final(state: MigrationView)
    requires
        !state.phase.promoted(),
        !(state.phase is Promote),
    ensures
        state.request().confined_to(state.staging()),
        state.request().spares(final_path(state.root)),
{
    let request = state.request();
    let staging = state.staging();
    assert forall|i: int| 0 <= i < request.written().len() implies within(
        #[trigger] request.written()[i],
        staging,
    ) by {
        let at_staging = match state.phase {
            Phase::PurgeStaging | Phase::CreateStaging => true,
            Phase::CreateParent { volume } => parent_of(volume.spec_target()) is None,
            _ => false,
        };
        if !at_staging {
            lemma_assembly_writes_below_staging(state, i);
            lemma_below_is_apart(request.written()[i], staging);
        }
    }
    assert forall|i: int| 0 <= i < request.written().len() implies !within(
        #[trigger] request.written()[i],
        final_path(state.root),
    ) && !within(final_path(state.root), request.written()[i]) by {
        lemma_staging_contents_apart_from_final(state.root, request.written()[i]);
    }
}

/// No step but the promotion touches the final path: whatever state a
/// migration is in, its request either is the promotion or writes neither at
/// the final path, nor below it, nor at any path that holds it.
pub proof fn lemma_only_promotion_writes_final(state: MigrationView)
    ensures
        state.phase is Promote || state.request().spares(final_path(state.root)),
{
    match state.phase {
        Phase::Promote => {},
        Phase::Archive { item } => {
            lemma_superseded_apart_from_final(state.root, item);
        },
        _ => {
            if !state.phase.promoted() {
                lemma_unpromoted_request_spares_final(state);
            }
        },
    }
}

/// While the staging subvolume is being filled, every request but the
/// promotion writes below the staging path and leaves the subvolume itself
/// in being.
pub proof fn lemma_assembly_keeps_staging(state: MigrationView)
    requires
        state.well_formed(),
        staged(state.phase),
        !(state.phase is Promote),
    ensures
        state.request().keeps(state.staging()),
{
    let request = state.request();
    assert forall|i: int| 0 <= i < request.written().len() implies !within(
        state.staging(),
        #[trigger] request.written()[i],
    ) by {
        lemma_assembly_writes_below_staging(state, i);
        lemma_below_is_apart(request.written()[i], state.staging());
    }
}

/// An answer that leaves a run unpromoted found it unpromoted, and the
/// request it answered did the final path no harm: it writes nowhere near
/// it, or was the promotion and failed.
pub proof fn lemma_unpromoted_step(before: MigrationView, reply: ReplyView)
    requires
        before.accepts(reply),
        !before.advance(reply).phase.promoted(),
    ensures
        !before.phase.promoted(),
        before.request().spares(final_path(before.root)) || (before.phase is Promote && reply
            is Failed),
{
    lemma_only_promotion_writes_final(before);
}

/// An answer after which a run has a staging subvolume to show either
/// reports that subvolume created, or found the run with one and answered a
/// request that left it in being.
pub proof fn lemma_staged_step(before: MigrationView, reply: ReplyView)
    requires
        before.well_formed(),
        before.accepts(reply),
        staged(before.advance(reply).phase),
    ensures
        staged(before.phase) || (before.phase is CreateStaging && reply is Done),
        staged(before.phase) ==> before.request().keeps(before.staging()) || (before.phase
            is Promote && reply is Failed),
{
    if staged(before.phase) && !(before.phase is Promote) {
        lemma_assembly_keeps_staging(before);
    }
}

/// As long as a run is not promoted, no reply has reported a change at or
/// near the final path.
pub proof fn lemma_unpromoted_run_is_harmless(start: MigrationView, replies: Seq<ReplyView>, n: int)
    requires
        0 <= n <= replies.len(),
        !state_at(start, replies, n).phase.promoted(),
    ensures
        forall|m: int| 0 <= m < n ==> #[trigger] harmless_at(start, replies, m),
    decreases n,
{
    if n > 0 {
        let before = state_at(start, replies, n - 1);
        lemma_state_step(start, replies, n - 1);
        if before.accepts(replies[n - 1]) {
            lemma_unpromoted_step(before, replies[n - 1]);
        }
        lemma_unpromoted_run_is_harmless(start, replies, n - 1);
        assert(harmless_at(start, replies, n - 1));
    }
}

/// A run that has a staging subvolume to show was told that the subvolume
/// was created, and no reply since has reported it removed or renamed. The
/// result is the index of the reply that reported it created.
pub proof fn lemma_staged_run_has_staging(
    start: MigrationView,
    replies: Seq<ReplyView>,
    n: int,
) -> (created: int)
    requires
        start.fresh(),
        0 <= n <= replies.len(),
        staged(state_at(start, replies, n).phase),
    ensures
        0 <= created < n,
        created_staging_at(start, replies, created),
        forall|m: int| created < m < n ==> #[trigger] keeps_staging_at(start, replies, m),
    decreases n,
{
    lemma_state_ends(start, replies);
    if n == 0 {
        0
    } else {
        let before = state_at(start, replies, n - 1);
        lemma_state_step(start, replies, n - 1);
        lemma_runs_stay_well_formed(start, replies.subrange(0, n - 1));
        if before.accepts(replies[n - 1]) {
            lemma_staged_step(before, replies[n - 1]);
        }
        if staged(before.phase) {
            let created = lemma_staged_run_has_staging(start, replies, n - 1);
            assert(keeps_staging_at(start, replies, n - 1));
            created
        } else {
            n - 1
        }
    }
}

/// Atomicity. In a run that failed, no reply reports a change at or near the
/// final path: the only request that writes there is the promotion, and it
/// was not carried out. And unless creating the staging subvolume is what
/// failed, a reply reports it created, and no request since has removed or
/// renamed it. The run can be tried again.
pub proof fn lemma_failed_run_can_be_retried(
    start: MigrationView,
    replies: Seq<ReplyView>,
    error: MigrationError,
)
    requires
        start.fresh(),
        after(start, replies).outcome() == Some(MigrationOutcome::Failed(error)),
    ensures
        forall|n: int| 0 <= n < replies.len() ==> #[trigger] harmless_at(start, replies, n),
        error != MigrationError::Filesystem(Operation::CreateStaging) ==> exists|created: int|
            {
                &&& 0 <= created < replies.len()
                &&& #[trigger] created_staging_at(start, replies, created)
                &&& forall|n: int|
                    created < n < replies.len() ==> #[trigger] keeps_staging_at(start, replies, n)
            },
{
    lemma_state_ends(start, replies);
    lemma_unpromoted_run_is_harmless(start, replies, replies.len() as int);
    if error != MigrationError::Filesystem(Operation::CreateStaging) {
        let created = lemma_staged_run_has_staging(start, replies, replies.len() as int);
        assert(created_staging_at(start, replies, created));
    }
}

/// Promotion is the one point of no return: a run that is promoted stays
/// promoted and ends as migrated, whatever is answered afterwards. Failed
/// attempts to set superseded paths aside do not undo it.
pub proof fn lemma_promotion_is_final(start: MigrationView, replies: Seq<ReplyView>)
    requires
        start.phase.promoted(),
    ensures
        after(start, replies).phase.promoted(),
        after(start, replies).outcome() is Some ==> after(start, replies).outcome() == Some(
            MigrationOutcome::Migrated,
        ),
    decreases replies.len(),
{
    if replies.len() > 0 {
        lemma_promotion_is_final(start, replies.drop_last());
    }
}

// Mounts and unmounts

/// An overlay was mounted: a mount request answered with success.
pub open spec fn mounted() -> spec_fn(MigrationView, ReplyView) -> bool {
    |state: MigrationView, reply: ReplyView| state.request() is Mount && reply is Done
}

/// An overlay was released: an unmount request answered. The answer is not
/// looked at; the overlay counts as released either way.
pub open spec fn unmounted() -> spec_fn(MigrationView, ReplyView) -> bool {
    |state: MigrationView, reply: ReplyView| state.request() is Unmount
}

/// One for a migration that holds a mounted overlay in `phase`, else nought.
pub open spec fn held(phase: Phase) -> nat {
    if phase.holds_mount() {
        1
    } else {
        0
    }
}

/// Mounts and unmounts balance over any stretch of a run: the overlays
/// mounted, with the one held at its start, are as many as the overlays
/// released, with the one held at its end.
pub proof fn lemma_mounts_balance_from(start: MigrationView, replies: Seq<ReplyView>)
    ensures
        tally(start, replies, mounted()) + held(start.phase) == tally(start, replies, unmounted())
            + held(after(start, replies).phase),
    decreases replies.len(),
{
    if replies.len() > 0 {
        lemma_mounts_balance_from(start, replies.drop_last());
    }
}

/// Mount and unmount balance. Every overlay that a run mounts is released
/// before the run ends: in a run that has ended, however it ended, mounts and
/// unmounts are equal in number.
pub proof fn lemma_mounts_balance(start: MigrationView, replies: Seq<ReplyView>)
    requires
        start.fresh(),
        after(start, replies).phase.terminal(),
    ensures
        tally(start, replies, mounted()) == tally(start, replies, unmounted()),
{
    lemma_mounts_balance_from(start, replies);
}

// Destructive-target safety

/// Whether `phase` comes after the place for the snapshot of `volume` has
/// been cleared and before the snapshot is taken.
pub open spec fn cleared_for(phase: Phase, volume: Subvolume) -> bool {
    ||| phase == Phase::ProbeParent { volume }
    ||| phase == Phase::CreateParent { volume }
    ||| phase == Phase::Snapshot { volume }
}

/// Once a plain directory was found in a snapshot's place, that place is
/// cleared in one way only: an answer that takes a run on towards the
/// snapshot either found it on the way already, or reports the directory
/// removed.
pub proof fn lemma_cleared_step(before: MigrationView, reply: ReplyView, volume: Subvolume)
    requires
        before.accepts(reply),
        before.phase.order() >= (Phase::RemoveTarget { volume }).order(),
        cleared_for(before.advance(reply).phase, volume),
    ensures
        cleared_for(before.phase, volume) || (before.phase == (Phase::RemoveTarget { volume })
            && reply is Done),
{
    lemma_every_answer_is_progress(before, reply);
    lemma_order_is_bounded(before.phase);
    match before.phase {
        Phase::ProbeTarget { volume: other }
        | Phase::RemoveTarget { volume: other }
        | Phase::Snapshot { volume: other } => {
            let first = Superseded::spec_first();
            lemma_ranks_count_up(Merged::Etc, other, first);
            lemma_ranks_count_up(Merged::Etc, volume, first);
            lemma_rank_determines_item((Merged::Etc, Merged::Etc), (other, volume), (first, first));
        },
        _ => {},
    }
}

/// Destructive-target safety. Where a plain directory stands in a snapshot's
/// place, the next request is to remove that directory with all it holds. If
/// the removal fails the run fails. The run goes on towards the snapshot only
/// after a reply has reported the directory removed, and the snapshot goes to
/// that same place. The result is the index of that reply.
pub proof fn lemma_plain_directory_gives_way(
    state: MigrationView,
    volume: Subvolume,
    replies: Seq<ReplyView>,
) -> (removed: int)
    requires
        state.phase == (Phase::ProbeTarget { volume }),
    ensures
        ({
            let found = state.step(ReplyView::Kind(PathKind::Directory));
            let later = after(found, replies);
            &&& found.request() == (RequestView::RemoveDirAll {
                path: state.snapshot_target(volume),
            })
            &&& found.step(ReplyView::Failed).phase == (Phase::QuitSplash {
                error: MigrationError::Filesystem(Operation::RemoveTarget(volume)),
            })
            &&& later.phase.order() >= found.phase.order()
            &&& cleared_for(later.phase, volume) ==> {
                &&& 0 <= removed < replies.len()
                &&& state_at(found, replies, removed).phase == found.phase
                &&& replies[removed] is Done
            }
            &&& later.phase == (Phase::Snapshot { volume }) ==> later.request()
                == (RequestView::Snapshot {
                source: joined(state.root, volume.spec_name()),
                target: state.snapshot_target(volume),
                recursive: true,
                writable: true,
            })
        }),
    decreases replies.len(),
{
    let found = state.step(ReplyView::Kind(PathKind::Directory));
    lemma_root_is_fixed(found, replies);
    if replies.len() == 0 {
        0
    } else {
        let before = after(found, replies.drop_last());
        let earlier = lemma_plain_directory_gives_way(state, volume, replies.drop_last());
        lemma_state_of_prefix(found, replies, 0);
        lemma_every_answer_is_progress(before, replies.last());
        if !cleared_for(after(found, replies).phase, volume) {
            0
        } else if cleared_for(before.phase, volume) {
            lemma_state_of_prefix(found, replies, earlier);
            earlier
        } else {
            lemma_cleared_step(before, replies.last(), volume);
            replies.len() - 1
        }
    }
}

// Confirmation gating

/// The machine was told to restart: a reboot request answered.
pub open spec fn rebooted() -> spec_fn(MigrationView, ReplyView) -> bool {
    |state: MigrationView, reply: ReplyView| state.request() is Reboot
}

/// Whether a migration in `phase` was given up because the operator declined.
pub open spec fn declined(phase: Phase) -> bool {
    phase == (Phase::QuitSplash { error: MigrationError::UserDeclined }) || phase
        == (Phase::Finished { outcome: MigrationOutcome::Failed(MigrationError::UserDeclined) })
}

/// The machine is restarted once where the operator declined, and never
/// otherwise.
pub proof fn lemma_reboot_iff_declined(start: MigrationView, replies: Seq<ReplyView>)
    requires
        start.fresh(),
    ensures
        tally(start, replies, rebooted()) == if declined(after(start, replies).phase) {
            1nat
        } else {
            0nat
        },
    decreases replies.len(),
{
    if replies.len() > 0 {
        lemma_reboot_iff_declined(start, replies.drop_last());
    }
}

/// The operator is asked only where the old mount table holds something
/// concerning: a run that has come to the question was told of such a
/// table. The result is the index of the reply that told of it.
pub proof fn lemma_question_means_risk(
    start: MigrationView,
    replies: Seq<ReplyView>,
    n: int,
) -> (read: int)
    requires
        start.fresh(),
        0 <= n <= replies.len(),
        ({
            let phase = state_at(start, replies, n).phase;
            phase is HideSplash || phase is Explain || phase is Confirm
        }),
    ensures
        0 <= read < n,
        state_at(start, replies, read).phase is ReadFstab,
        replies[read] matches ReplyView::Entries(entries) && concerning_count(entries) > 0,
    decreases n,
{
    lemma_state_ends(start, replies);
    lemma_state_step(start, replies, n - 1);
    let before = state_at(start, replies, n - 1);
    if before.phase is ReadFstab && before.accepts(replies[n - 1]) {
        n - 1
    } else {
        lemma_question_means_risk(start, replies, n - 1)
    }
}

/// After the operator has declined, a run is about to ask for the restart,
/// or is ending as declined, or has ended so.
proof fn lemma_declined_tail(start: MigrationView, replies: Seq<ReplyView>, asked: int, n: int)
    requires
        0 <= asked < n <= replies.len(),
        state_at(start, replies, asked).phase is Confirm,
        replies[asked] == ReplyView::Answer(false),
    ensures
        state_at(start, replies, n).phase is Reboot || declined(state_at(start, replies, n).phase),
    decreases n,
{
    lemma_state_step(start, replies, n - 1);
    if n - 1 > asked {
        lemma_declined_tail(start, replies, asked, n - 1);
    }
}

/// Whether `request` is all that a run asks for before the operator is
/// asked: it takes no snapshot, renames nothing, creates no subvolume but
/// the staging subvolume, and writes nowhere else.
pub open spec fn is_preliminary(request: RequestView, root: Seq<char>) -> bool {
    &&& !(request is Snapshot)
    &&& !(request is Rename)
    &&& request is CreateSubvolume ==> request == (RequestView::CreateSubvolume {
        path: staging_path(root),
    })
    &&& request.confined_to(staging_path(root))
}

/// Whether `request` is all that a run asks for after the operator has
/// declined: the restart, to dismiss the splash, and nothing more.
pub open spec fn is_farewell(request: RequestView) -> bool {
    ||| request == RequestView::Reboot
    ||| request == (RequestView::Splash { verb: Splash::Quit })
    ||| request == (RequestView::Finish {
        outcome: MigrationOutcome::Failed(MigrationError::UserDeclined),
    })
}

/// Confirmation gating. Where the operator was asked and declined: up to the
/// question the run wrote nothing but the staging subvolume, taking no
/// snapshot and renaming nothing; after it the run asks only for the restart
/// and to dismiss the splash, and then has ended as declined. The restart is
/// asked for once at most, and once exactly in a run that has ended.
pub proof fn lemma_declined_run_stops(start: MigrationView, replies: Seq<ReplyView>, asked: int)
    requires
        start.fresh(),
        0 <= asked < replies.len(),
        state_at(start, replies, asked).phase is Confirm,
        replies[asked] == ReplyView::Answer(false),
    ensures
        forall|n: int|
            0 <= n <= asked ==> is_preliminary(
                (#[trigger] state_at(start, replies, n)).request(),
                start.root,
            ),
        forall|n: int|
            asked < n <= replies.len() ==> is_farewell(
                (#[trigger] state_at(start, replies, n)).request(),
            ),
        tally(start, replies, rebooted()) <= 1,
        after(start, replies).phase.terminal() ==> {
            &&& tally(start, replies, rebooted()) == 1
            &&& after(start, replies).outcome() == Some(
                MigrationOutcome::Failed(MigrationError::UserDeclined),
            )
        },
{
    lemma_state_ends(start, replies);
    lemma_reboot_iff_declined(start, replies);
    assert forall|n: int| 0 <= n <= asked implies is_preliminary(
        (#[trigger] state_at(start, replies, n)).request(),
        start.root,
    ) by {
        lemma_root_is_fixed(start, replies.subrange(0, n));
        lemma_order_never_falls(start, replies, n, asked);
        lemma_unpromoted_request_spares_final(state_at(start, replies, n));
    }
    assert forall|n: int| asked < n <= replies.len() implies is_farewell(
        (#[trigger] state_at(start, replies, n)).request(),
    ) by {
        lemma_declined_tail(start, replies, asked, n);
    }
    lemma_declined_tail(start, replies, asked, replies.len() as int);
}

// Completeness

/// A run that ended as migrated has passed every milestone once: it created
/// the staging subvolume, mounted and copied each merged directory, took each
/// snapshot, promoted, and tried to set each superseded path aside.
pub proof fn lemma_migrated_run_is_complete(
    start: MigrationView,
    replies: Seq<ReplyView>,
    milestone: Phase,
)
    requires
        start.fresh(),
        milestone.milestone(),
        after(start, replies).outcome() == Some(MigrationOutcome::Migrated),
    ensures
        tally(start, replies, passed(milestone)) == 1,
{
    lemma_milestones_in_order(start, replies, milestone);
    lemma_order_is_bounded(milestone);
}

/// Assembly comes before promotion, and promotion before archival. When the
/// promotion is asked for, every merged directory has been copied and every
/// snapshot taken; when a path is to be set aside, the promotion has been
/// made.
pub proof fn lemma_assembled_before_promotion(
    start: MigrationView,
    replies: Seq<ReplyView>,
    dir: Merged,
    volume: Subvolume,
)
    requires
        start.fresh(),
        after(start, replies).phase is Promote || after(start, replies).phase is Archive,
    ensures
        tally(start, replies, passed(Phase::Copy { dir })) == 1,
        tally(start, replies, passed(Phase::Snapshot { volume })) == 1,
        after(start, replies).phase is Archive ==> tally(start, replies, passed(Phase::Promote))
            == 1,
{
    lemma_milestones_in_order(start, replies, Phase::Copy { dir });
    lemma_milestones_in_order(start, replies, Phase::Snapshot { volume });
    lemma_milestones_in_order(start, replies, Phase::Promote);
    lemma_order_is_bounded(Phase::Copy { dir });
    lemma_order_is_bounded(Phase::Snapshot { volume });
    lemma_order_is_bounded(after(start, replies).phase);
}

} // verus!
