//! Risk assessment of an old mount table.
//!
//! The new layout drops whatever the old table mounted. Swap entries can go
//! without harm; any other entry may be one that the system needs to boot, so
//! the operator is asked before the migration goes on.

use crate::text::same_text;
use vstd::prelude::*;

verus! {

/// One line of a mount table.
#[derive(Clone, Debug, PartialEq, Eq)]
pub struct FstabEntry {
    pub device: String,
    pub mount_point: String,
    pub filesystem_type: String,
    pub options: Vec<String>,
}

/// An entry as contracts see it.
pub struct FstabEntryView {
    pub device: Seq<char>,
    pub mount_point: Seq<char>,
    pub filesystem_type: Seq<char>,
    pub options: Seq<Seq<char>>,
}

impl View for FstabEntry {
    type V = FstabEntryView;

    open spec fn view(&self) -> FstabEntryView {
        FstabEntryView {
            device: self.device@,
            mount_point: self.mount_point@,
            filesystem_type: self.filesystem_type@,
            options: self.options@.map_values(|option: String| option@),
        }
    }
}

/// The entries of a table as contracts see them.
pub open spec fn entries_view(entries: Seq<FstabEntry>) -> Seq<FstabEntryView> {
    entries.map_values(|entry: FstabEntry| entry@)
}

/// The file system type of swap space.
pub open spec fn swap_type() -> Seq<char> {
    "swap"@
}

impl FstabEntryView {
    /// An entry is concerning unless it is swap space.
    pub open spec fn concerning(self) -> bool {
        self.filesystem_type != swap_type()
    }
}

/// How many of `entries` are concerning.
pub open spec fn concerning_count(entries: Seq<FstabEntryView>) -> nat {
    entries.filter(|entry: FstabEntryView| entry.concerning()).len()
}

impl FstabEntry {
    /// Whether dropping this entry may matter: true of everything but swap.
    pub fn is_concerning(&self) -> (concerning: bool)
        ensures
            concerning == self@.concerning(),
    {
        !same_text(self.filesystem_type.as_str(), "swap")
    }
}

/// Counts the entries that are not swap space.
pub fn assess(entries: &Vec<FstabEntry>) -> (count: usize)
    ensures
        count == concerning_count(entries_view(entries@)),
{
    let ghost all = entries_view(entries@);
    let ghost test = |entry: FstabEntryView| entry.concerning();
    let mut count: usize = 0;
    let mut i: usize = 0;
    while i < entries.len()
        invariant
            i <= entries.len(),
            all == entries_view(entries@),
            test == |entry: FstabEntryView| entry.concerning(),
            count == all.subrange(0, i as int).filter(test).len(),
            count <= i,
        decreases entries.len() - i,
    {
        let concerning = entries[i].is_concerning();
        proof {
            let before = all.subrange(0, i as int);
            let upto = all.subrange(0, i + 1);
            assert(upto =~= before.push(all[i as int]));
            assert(all[i as int] == entries@[i as int]@);
            lemma_filter_push(before, all[i as int], test);
        }
        if concerning {
            count += 1;
        }
        i += 1;
    }
    assert(all.subrange(0, i as int) =~= all);
    count
}

/// Filtering a sequence that has grown by one element keeps that element or
/// not, and leaves the rest of the result as it was.
pub proof fn lemma_filter_push<A>(s: Seq<A>, a: A, pred: spec_fn(A) -> bool)
    ensures
        s.push(a).filter(pred) == if pred(a) {
            s.filter(pred).push(a)
        } else {
            s.filter(pred)
        },
{
    reveal(Seq::filter);
    assert(s.push(a).drop_last() =~= s);
}

/// A table of swap entries alone holds nothing concerning.
pub proof fn lemma_swap_only_is_harmless(entries: Seq<FstabEntryView>)
    requires
        forall|i: int| 0 <= i < entries.len() ==> entries[i].filesystem_type == swap_type(),
    ensures
        concerning_count(entries) == 0,
    decreases entries.len(),
{
    reveal(Seq::filter);
    if entries.len() > 0 {
        lemma_swap_only_is_harmless(entries.drop_last());
    }
}

} // verus!
