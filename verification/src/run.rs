//! Runs: a migration and the replies it is given, one after the other.
//!
//! What the crate states of the procedure as a whole, it states of runs. The
//! definitions here make a run something to quantify over; the statements
//! themselves are in [`crate::progress`] and [`crate::laws`].

use crate::machine::MigrationView;
use crate::request::ReplyView;
use vstd::prelude::*;

verus! {

/// The migration `start` after `replies`, taken in order.
pub open spec fn after(start: MigrationView, replies: Seq<ReplyView>) -> MigrationView
    decreases replies.len(),
{
    if replies.len() == 0 {
        start
    } else {
        after(start, replies.drop_last()).step(replies.last())
    }
}

/// The migration as it stood when reply `n` came in; for `n` the number of
/// replies, as it stands in the end.
pub open spec fn state_at(start: MigrationView, replies: Seq<ReplyView>, n: int) -> MigrationView {
    after(start, replies.subrange(0, n))
}

/// Whether reply `n` answered the request that was out when it came in.
pub open spec fn exchanged(start: MigrationView, replies: Seq<ReplyView>, n: int) -> bool {
    state_at(start, replies, n).accepts(replies[n])
}

/// How many of the replies answered their request and, with the state they
/// came in at, satisfy `what`.
pub open spec fn tally(
    start: MigrationView,
    replies: Seq<ReplyView>,
    what: spec_fn(MigrationView, ReplyView) -> bool,
) -> nat
    decreases replies.len(),
{
    if replies.len() == 0 {
        0
    } else {
        let before = after(start, replies.drop_last());
        let counts = before.accepts(replies.last()) && what(before, replies.last());
        tally(start, replies.drop_last(), what) + if counts {
            1nat
        } else {
            0nat
        }
    }
}

/// A run begins in its start state and ends in the state after all replies.
pub proof fn lemma_state_ends(start: MigrationView, replies: Seq<ReplyView>)
    ensures
        state_at(start, replies, 0) == start,
        state_at(start, replies, replies.len() as int) == after(start, replies),
{
    assert(replies.subrange(0, 0) =~= Seq::<ReplyView>::empty());
    assert(replies.subrange(0, replies.len() as int) =~= replies);
}

/// Reply `n` of a run moves the migration from its state at `n` to its state
/// at `n + 1`.
pub proof fn lemma_state_step(start: MigrationView, replies: Seq<ReplyView>, n: int)
    requires
        0 <= n < replies.len(),
    ensures
        state_at(start, replies, n + 1) == state_at(start, replies, n).step(replies[n]),
{
    let upto = replies.subrange(0, n + 1);
    assert(upto.drop_last() =~= replies.subrange(0, n));
    assert(upto.last() == replies[n]);
}

/// The states of a run are the same whether or not a last reply follows.
pub proof fn lemma_state_of_prefix(start: MigrationView, replies: Seq<ReplyView>, n: int)
    requires
        0 <= n < replies.len(),
    ensures
        state_at(start, replies.drop_last(), n) == state_at(start, replies, n),
        state_at(start, replies, replies.len() - 1) == after(start, replies.drop_last()),
{
    assert(replies.drop_last().subrange(0, n) =~= replies.subrange(0, n));
    assert(replies.subrange(0, replies.len() - 1) =~= replies.drop_last());
}

/// The root and the hint of a migration never change.
pub proof fn lemma_root_is_fixed(start: MigrationView, replies: Seq<ReplyView>)
    ensures
        after(start, replies).root == start.root,
        after(start, replies).hint == start.hint,
    decreases replies.len(),
{
    if replies.len() > 0 {
        lemma_root_is_fixed(start, replies.drop_last());
    }
}

/// Every state that a run reaches from a well-formed one is well formed.
pub proof fn lemma_runs_stay_well_formed(start: MigrationView, replies: Seq<ReplyView>)
    requires
        start.well_formed(),
    ensures
        after(start, replies).well_formed(),
    decreases replies.len(),
{
    if replies.len() > 0 {
        lemma_runs_stay_well_formed(start, replies.drop_last());
    }
}

} // verus!
