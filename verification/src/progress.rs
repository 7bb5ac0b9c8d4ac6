//! The procedure moves forward only, and in a fixed order.
//!
//! Every phase has an order ([`Phase::order`]). An answered request takes a
//! migration to a phase of higher order, so no phase comes twice and every
//! run ends. Some phases are milestones ([`Phase::milestone`]): a run that
//! stays on track passes each of them, one after the other, none twice and
//! none skipped.

use crate::layout::{
    lemma_rank_determines_item, lemma_ranks_count_up, Merged, Subvolume, Superseded,
};
use crate::machine::{last_order, MigrationView, Phase};
use crate::request::ReplyView;
use crate::run::{after, lemma_state_step, state_at, tally};
use vstd::prelude::*;

verus! {

/// Any reply that answered its request.
pub open spec fn answered() -> spec_fn(MigrationView, ReplyView) -> bool {
    |state: MigrationView, reply: ReplyView| true
}

/// A milestone was passed: the request of that phase was answered with
/// success. An attempt to set a path aside counts whatever came of it.
pub open spec fn passed(milestone: Phase) -> spec_fn(MigrationView, ReplyView) -> bool {
    |state: MigrationView, reply: ReplyView|
        state.phase == milestone && (reply is Done || milestone is Archive)
}

/// Whether `n` is the order of a milestone.
pub open spec fn is_milestone_order(n: nat) -> bool {
    n == 5 || n == 12 || n == 13 || n == 15 || n == 16 || n == 22 || n == 27 || n == 32 || n == 37
        || n == 42 || n == 43 || (44 <= n && n <= 50)
}

/// The orders run from that of the first phase to that of the last, which
/// only a finished run has; the phases of one kind have orders next to each
/// other.
pub proof fn lemma_order_is_bounded(phase: Phase)
    ensures
        phase.order() <= last_order(),
        phase.terminal() <==> phase.order() == last_order(),
        phase is Mount || phase is Copy || phase is Unmount ==> 12 <= phase.order() <= 17,
        phase is ProbeTarget || phase is RemoveTarget || phase is ProbeParent
            || phase is CreateParent || phase is Snapshot ==> 18 <= phase.order() <= 42,
        phase is Archive ==> 44 <= phase.order() <= 50,
{
    lemma_ranks_of(phase);
}

/// What is known of the rank of the item that `phase` works on.
proof fn lemma_ranks_of(phase: Phase)
    ensures
        phase matches Phase::Mount { dir } ==> dir.rank() == 0 || dir.rank() == 1,
        phase matches Phase::Copy { dir } ==> dir.rank() == 0 || dir.rank() == 1,
        phase matches Phase::Unmount { dir, .. } ==> dir.rank() == 0 || dir.rank() == 1,
        phase matches Phase::ProbeTarget { volume } ==> volume.rank() <= 4,
        phase matches Phase::RemoveTarget { volume } ==> volume.rank() <= 4,
        phase matches Phase::ProbeParent { volume } ==> volume.rank() <= 4,
        phase matches Phase::CreateParent { volume } ==> volume.rank() <= 4,
        phase matches Phase::Snapshot { volume } ==> volume.rank() <= 4,
        phase matches Phase::Archive { item } ==> item.rank() <= 6,
{
    match phase {
        Phase::Mount { dir } | Phase::Copy { dir } | Phase::Unmount { dir, .. } => {
            lemma_ranks_count_up(dir, Subvolume::Home, Superseded::spec_first());
        },
        Phase::ProbeTarget { volume }
        | Phase::RemoveTarget { volume }
        | Phase::ProbeParent { volume }
        | Phase::CreateParent { volume }
        | Phase::Snapshot { volume } => {
            lemma_ranks_count_up(Merged::Etc, volume, Superseded::spec_first());
        },
        Phase::Archive { item } => {
            lemma_ranks_count_up(Merged::Etc, Subvolume::Home, item);
        },
        _ => {},
    }
}

/// Every answer is progress: a reply that answers the request moves the
/// migration to a phase of higher order, and any other reply leaves it where
/// it is. A finished run takes no reply.
pub proof fn lemma_every_answer_is_progress(state: MigrationView, reply: ReplyView)
    ensures
        state.accepts(reply) ==> state.step(reply).phase.order() > state.phase.order(),
        !state.accepts(reply) ==> state.step(reply) == state,
        state.phase.terminal() ==> !state.accepts(reply),
{
    lemma_order_is_bounded(state.phase);
    if state.accepts(reply) {
        let next = state.advance(reply).phase;
        lemma_order_is_bounded(next);
        match state.phase {
            Phase::Mount { dir } | Phase::Copy { dir } | Phase::Unmount { dir, .. } => {
                lemma_ranks_count_up(dir, Subvolume::Home, Superseded::spec_first());
                if state.phase is Unmount {
                    assert(next.order() >= 15 + 3 * dir.rank());
                }
            },
            Phase::ProbeTarget { volume }
            | Phase::RemoveTarget { volume }
            | Phase::ProbeParent { volume }
            | Phase::CreateParent { volume }
            | Phase::Snapshot { volume } => {
                lemma_ranks_count_up(Merged::Etc, volume, Superseded::spec_first());
                if state.phase is Snapshot {
                    assert(next.order() >= 23 + 5 * volume.rank());
                }
            },
            Phase::Archive { item } => {
                lemma_ranks_count_up(Merged::Etc, Subvolume::Home, item);
                assert(next.order() >= 45 + item.rank());
            },
            _ => {},
        }
    }
}

/// Along a run the order of the phase never falls.
pub proof fn lemma_order_never_falls(start: MigrationView, replies: Seq<ReplyView>, i: int, j: int)
    requires
        0 <= i <= j <= replies.len(),
    ensures
        state_at(start, replies, i).phase.order() <= state_at(start, replies, j).phase.order(),
    decreases j - i,
{
    if i < j {
        lemma_order_never_falls(start, replies, i, j - 1);
        lemma_state_step(start, replies, j - 1);
        lemma_every_answer_is_progress(state_at(start, replies, j - 1), replies[j - 1]);
    }
}

/// Every run ends. Each answered request raises the order of the phase, and
/// the orders are bounded: a run takes no more answers than there are orders
/// left above its start.
pub proof fn lemma_runs_end(start: MigrationView, replies: Seq<ReplyView>)
    ensures
        start.phase.order() + tally(start, replies, answered()) <= after(
            start,
            replies,
        ).phase.order(),
        start.phase.order() + tally(start, replies, answered()) <= last_order(),
    decreases replies.len(),
{
    lemma_order_is_bounded(after(start, replies).phase);
    if replies.len() > 0 {
        lemma_runs_end(start, replies.drop_last());
        lemma_every_answer_is_progress(after(start, replies.drop_last()), replies.last());
    }
}

/// The order of a milestone is a milestone order.
proof fn lemma_milestone_order(milestone: Phase)
    requires
        milestone.milestone(),
    ensures
        is_milestone_order(milestone.order()),
{
    lemma_ranks_of(milestone);
    if let Phase::Snapshot { volume } = milestone {
        let r = volume.rank();
        assert(r == 0 || r == 1 || r == 2 || r == 3 || r == 4);
    }
}

/// Only a milestone has a milestone order.
proof fn lemma_milestone_order_means_milestone(phase: Phase)
    requires
        is_milestone_order(phase.order()),
    ensures
        phase.milestone(),
{
    lemma_ranks_of(phase);
    match phase {
        Phase::ProbeTarget { volume }
        | Phase::RemoveTarget { volume }
        | Phase::ProbeParent { volume }
        | Phase::CreateParent { volume } => {
            let r = volume.rank();
            assert(r == 0 || r == 1 || r == 2 || r == 3 || r == 4);
        },
        _ => {},
    }
}

/// Two milestones of the same order are the same phase.
proof fn lemma_milestones_differ_in_order(a: Phase, b: Phase)
    requires
        a.milestone(),
        b.milestone(),
        a.order() == b.order(),
    ensures
        a == b,
{
    lemma_order_is_bounded(a);
    lemma_order_is_bounded(b);
    let home = Subvolume::Home;
    let first = Superseded::spec_first();
    match (a, b) {
        (Phase::Mount { dir: x }, Phase::Mount { dir: y })
        | (Phase::Copy { dir: x }, Phase::Copy { dir: y })
        | (Phase::Mount { dir: x }, Phase::Copy { dir: y })
        | (Phase::Copy { dir: x }, Phase::Mount { dir: y }) => {
            lemma_rank_determines_item((x, y), (home, home), (first, first));
        },
        (Phase::Snapshot { volume: x }, Phase::Snapshot { volume: y }) => {
            lemma_rank_determines_item((Merged::Etc, Merged::Etc), (x, y), (first, first));
        },
        (Phase::Archive { item: x }, Phase::Archive { item: y }) => {
            lemma_rank_determines_item((Merged::Etc, Merged::Etc), (home, home), (x, y));
        },
        _ => {},
    }
}

/// A milestone is the only phase of its order.
pub proof fn lemma_milestone_by_order(phase: Phase, milestone: Phase)
    requires
        milestone.milestone(),
    ensures
        phase.order() == milestone.order() ==> phase == milestone,
        is_milestone_order(milestone.order()),
{
    lemma_milestone_order(milestone);
    if phase.order() == milestone.order() {
        lemma_milestone_order_means_milestone(phase);
        lemma_milestones_differ_in_order(phase, milestone);
    }
}

/// An answer that keeps a run on track found it on track.
proof fn lemma_off_track_stays_off(before: MigrationView, reply: ReplyView)
    requires
        before.accepts(reply),
        before.advance(reply).phase.on_track(),
    ensures
        before.phase.on_track(),
{
}

/// An answer that keeps a run on track leads from a milestone to the phase
/// of the next order, and only if the milestone was passed.
proof fn lemma_step_from_milestone(before: MigrationView, reply: ReplyView)
    requires
        before.phase.milestone(),
        before.accepts(reply),
        before.advance(reply).phase.on_track(),
    ensures
        reply is Done || before.phase is Archive,
        before.advance(reply).phase.order() == before.phase.order() + 1,
{
    match before.phase {
        Phase::Mount { dir } | Phase::Copy { dir } => {
            lemma_ranks_count_up(dir, Subvolume::Home, Superseded::spec_first());
        },
        Phase::Snapshot { volume } => {
            lemma_ranks_count_up(Merged::Etc, volume, Superseded::spec_first());
        },
        Phase::Archive { item } => {
            lemma_ranks_count_up(Merged::Etc, Subvolume::Home, item);
        },
        _ => {},
    }
}

/// An answer that keeps a run on track leads from a phase that is no
/// milestone across no milestone.
proof fn lemma_step_between_milestones(before: MigrationView, reply: ReplyView)
    requires
        !before.phase.milestone(),
        before.accepts(reply),
        before.advance(reply).phase.on_track(),
    ensures
        forall|n: nat|
            before.phase.order() <= n < before.advance(reply).phase.order()
                ==> !#[trigger] is_milestone_order(n),
{
    let next = before.advance(reply).phase;
    match before.phase {
        Phase::Unmount { dir, .. } => {
            lemma_ranks_count_up(dir, Subvolume::Home, Superseded::spec_first());
            assert(dir.rank() == 0 || dir.rank() == 1);
            assert(next.order() <= 15 + 3 * dir.rank());
        },
        Phase::ProbeTarget { volume }
        | Phase::RemoveTarget { volume }
        | Phase::ProbeParent { volume }
        | Phase::CreateParent { volume } => {
            lemma_ranks_count_up(Merged::Etc, volume, Superseded::spec_first());
            let r = volume.rank();
            assert(r == 0 || r == 1 || r == 2 || r == 3 || r == 4);
            assert(18 + 5 * r <= before.phase.order());
            assert(next.order() <= 22 + 5 * r);
        },
        Phase::ReadFstab | Phase::Confirm => {
            assert(next.order() <= 12);
        },
        _ => {
            assert(next.order() <= before.phase.order() + 2);
        },
    }
}

/// No answer takes a run that stays on track past a milestone: the run was on
/// track before, and it is beyond the milestone afterwards only if it was
/// beyond it before or has just passed it.
pub proof fn lemma_no_milestone_is_skipped(before: MigrationView, reply: ReplyView, milestone: Phase)
    requires
        milestone.milestone(),
        before.accepts(reply),
        before.advance(reply).phase.on_track(),
    ensures
        before.phase.on_track(),
        passed(milestone)(before, reply) ==> before.phase.order() == milestone.order()
            && before.advance(reply).phase.order() > milestone.order(),
        !passed(milestone)(before, reply) ==> (before.advance(reply).phase.order()
            > milestone.order() <==> before.phase.order() > milestone.order()),
{
    lemma_every_answer_is_progress(before, reply);
    lemma_milestone_by_order(before.phase, milestone);
    lemma_off_track_stays_off(before, reply);
    if before.phase.milestone() {
        lemma_step_from_milestone(before, reply);
    } else {
        lemma_step_between_milestones(before, reply);
    }
    assert(is_milestone_order(milestone.order()));
}

/// Milestones are passed in order, each once. In a run that is still on
/// track, a milestone has been passed once if the run is beyond it, and not
/// at all if it is not.
pub proof fn lemma_milestones_in_order(
    start: MigrationView,
    replies: Seq<ReplyView>,
    milestone: Phase,
)
    requires
        start.fresh(),
        milestone.milestone(),
        after(start, replies).phase.on_track(),
    ensures
        tally(start, replies, passed(milestone)) == if after(start, replies).phase.order()
            > milestone.order() {
            1nat
        } else {
            0nat
        },
    decreases replies.len(),
{
    if replies.len() > 0 {
        let before = after(start, replies.drop_last());
        if before.accepts(replies.last()) {
            lemma_no_milestone_is_skipped(before, replies.last(), milestone);
        }
        lemma_milestones_in_order(start, replies.drop_last(), milestone);
    }
}

} // verus!
