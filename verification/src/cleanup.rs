//! Choosing what a clean-up of a work directory removes.
//!
//! A build leaves one subvolume in its work directory, under a name that
//! starts with `kde-linux_`. Other things may match that name: plain
//! directories, files. The clean-up removes the first match that is a
//! subvolume, and nothing where none is.

use crate::text::{join, joined};
use vstd::prelude::*;

verus! {

/// What was found out about one path that matches the pattern.
#[derive(Clone, Copy, Debug, PartialEq, Eq, Structural)]
pub struct Candidate {
    pub is_directory: bool,
    pub is_subvolume: bool,
}

impl Candidate {
    /// Whether the clean-up may remove this path: a directory that is a
    /// subvolume.
    pub open spec fn removable(self) -> bool {
        self.is_directory && self.is_subvolume
    }
}

/// The name pattern of the subvolumes that builds leave behind.
pub open spec fn build_pattern() -> Seq<char> {
    "kde-linux_*"@
}

/// Whether `chosen` is the first removable candidate, or none where no
/// candidate is removable.
pub open spec fn is_first_removable(candidates: Seq<Candidate>, chosen: Option<usize>) -> bool {
    match chosen {
        Some(k) => {
            &&& k < candidates.len()
            &&& candidates[k as int].removable()
            &&& forall|i: int| 0 <= i < k ==> !(#[trigger] candidates[i]).removable()
        },
        None => forall|i: int| 0 <= i < candidates.len() ==> !(#[trigger] candidates[i]).removable(),
    }
}

/// The pattern that matches the build subvolumes below `work_path`.
pub fn pattern_below(work_path: &str) -> (pattern: String)
    ensures
        pattern@ == joined(work_path@, build_pattern()),
{
    join(work_path, "kde-linux_*")
}

/// Picks the first candidate that is a directory and a subvolume.
pub fn first_subvolume(candidates: &Vec<Candidate>) -> (chosen: Option<usize>)
    ensures
        is_first_removable(candidates@, chosen),
{
    let mut i: usize = 0;
    while i < candidates.len()
        invariant
            i <= candidates.len(),
            forall|j: int| 0 <= j < i ==> !(#[trigger] candidates@[j]).removable(),
        decreases candidates.len() - i,
    {
        if candidates[i].is_directory && candidates[i].is_subvolume {
            return Some(i);
        }
        i += 1;
    }
    None
}

} // verus!
