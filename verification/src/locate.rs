//! Finding the legacy layout to migrate from.
//!
//! Two strategies lead to a [`SourceLayout`]. Either the caller names a
//! read-only image mount, and that is the source; or the children of the pool
//! root are scanned for legacy root subvolumes, of which the one with the
//! highest version is taken.

use crate::layout::{is_legacy_name, legacy_prefix};
use crate::text::{join, joined, parse_number, parsed_number};
use vstd::prelude::*;

verus! {

/// Where the old trees are read from.
#[derive(Clone, Debug, PartialEq, Eq)]
pub enum SourceLayout {
    /// A legacy root subvolume, found by its versioned name.
    Legacy { rootfs: String },
    /// A read-only image mount that the caller named.
    Image { mount: String },
}

/// A source layout as contracts see it.
pub enum SourceLayoutView {
    Legacy { rootfs: Seq<char> },
    Image { mount: Seq<char> },
}

impl View for SourceLayout {
    type V = SourceLayoutView;

    open spec fn view(&self) -> SourceLayoutView {
        match self {
            SourceLayout::Legacy { rootfs } => SourceLayoutView::Legacy { rootfs: rootfs@ },
            SourceLayout::Image { mount } => SourceLayoutView::Image { mount: mount@ },
        }
    }
}

impl SourceLayoutView {
    /// The directory that holds the old `etc` and `var` trees.
    pub open spec fn base(self) -> Seq<char> {
        match self {
            SourceLayoutView::Legacy { rootfs } => rootfs,
            SourceLayoutView::Image { mount } => mount,
        }
    }
}

impl SourceLayout {
    /// The directory that holds the old `etc` and `var` trees.
    pub fn base(&self) -> (path: &str)
        ensures
            path@ == self@.base(),
    {
        match self {
            SourceLayout::Legacy { rootfs } => rootfs.as_str(),
            SourceLayout::Image { mount } => mount.as_str(),
        }
    }
}

/// An immediate child of the pool root, as a scan of the root reports it.
#[derive(Clone, Debug, PartialEq, Eq)]
pub struct Child {
    /// The child's file name.
    pub name: String,
    /// Whether the child holds the marker directory. Only looked at where the
    /// name is a legacy name.
    pub has_marker: bool,
}

/// A child as contracts see it.
pub struct ChildView {
    pub name: Seq<char>,
    pub has_marker: bool,
}

impl View for Child {
    type V = ChildView;

    open spec fn view(&self) -> ChildView {
        ChildView { name: self.name@, has_marker: self.has_marker }
    }
}

/// The children of a listing as contracts see them.
pub open spec fn children_view(children: Seq<Child>) -> Seq<ChildView> {
    children.map_values(|child: Child| child@)
}

impl ChildView {
    /// A legacy name on a child that holds the marker: not a decoy.
    pub open spec fn plausible(self) -> bool {
        legacy_prefix().is_prefix_of(self.name) && self.has_marker
    }

    /// What follows the legacy prefix in the name.
    pub open spec fn version_text(self) -> Seq<char> {
        self.name.subrange(legacy_prefix().len() as int, self.name.len() as int)
    }

    /// The version that the name carries, where the child is plausible and
    /// the text after the prefix is a number.
    pub open spec fn version(self) -> Option<u64> {
        if self.plausible() {
            parsed_number(self.version_text())
        } else {
            None
        }
    }

    /// Plausible, but what follows the prefix is no version number.
    pub open spec fn malformed(self) -> bool {
        self.plausible() && parsed_number(self.version_text()).is_none()
    }
}

/// What a scan of the root's children found.
#[derive(Clone, Debug, PartialEq, Eq)]
pub struct ScanReport {
    /// Index of the legacy root subvolume to migrate from, if there is one.
    pub chosen: Option<usize>,
    /// Indices of the children passed over for a malformed version, in
    /// ascending order. They deserve a warning; they are no reason to fail.
    pub malformed: Vec<usize>,
}

/// Whether `chosen` is the right choice among `children`: a child with a
/// version that no other child exceeds and no earlier child equals; or none,
/// where no child has a version.
pub open spec fn is_choice(children: Seq<ChildView>, chosen: Option<usize>) -> bool {
    match chosen {
        None => forall|i: int| 0 <= i < children.len() ==> (#[trigger] children[i]).version().is_none(),
        Some(k) => {
            &&& k < children.len()
            &&& children[k as int].version().is_some()
            &&& forall|i: int|
                0 <= i < children.len() && (#[trigger] children[i]).version().is_some()
                    ==> children[i].version().unwrap() <= children[k as int].version().unwrap()
            &&& forall|i: int|
                0 <= i < k && (#[trigger] children[i]).version().is_some() ==> children[i].version().unwrap()
                    < children[k as int].version().unwrap()
        },
    }
}

/// The indices below `n` of the malformed children, in ascending order.
pub open spec fn malformed_indices(children: Seq<ChildView>, n: int) -> Seq<usize>
    decreases n,
{
    if n <= 0 {
        Seq::empty()
    } else if 0 < n <= children.len() && children[n - 1].malformed() {
        malformed_indices(children, n - 1).push((n - 1) as usize)
    } else {
        malformed_indices(children, n - 1)
    }
}

impl Child {
    /// The version that the child's name carries, if the child is a
    /// plausible legacy root subvolume with a well-formed version.
    pub fn version(&self) -> (version: Option<u64>)
        ensures
            version == self@.version(),
    {
        if !self.has_marker || !is_legacy_name(self.name.as_str()) {
            return None;
        }
        parse_number(self.version_text())
    }

    /// What follows the legacy prefix in the name.
    fn version_text(&self) -> (text: &str)
        requires
            legacy_prefix().is_prefix_of(self.name@),
        ensures
            text@ == self@.version_text(),
    {
        proof {
            reveal_strlit("@kde-linux_");
        }
        let name = self.name.as_str();
        name.substring_char(11, name.unicode_len())
    }

    /// Whether the child is plausible but carries no well-formed version.
    pub fn is_malformed(&self) -> (malformed: bool)
        ensures
            malformed == self@.malformed(),
    {
        if !self.has_marker || !is_legacy_name(self.name.as_str()) {
            return false;
        }
        parse_number(self.version_text()).is_none()
    }
}

/// Picks the legacy root subvolume with the highest version among the
/// children of the root, the earliest of them where several carry it, and
/// lists the children that were passed over for a malformed version.
pub fn scan(children: &Vec<Child>) -> (report: ScanReport)
    ensures
        is_choice(children_view(children@), report.chosen),
        report.malformed@ == malformed_indices(children_view(children@), children@.len() as int),
{
    let ghost all = children_view(children@);
    let mut chosen: Option<usize> = None;
    let mut best: u64 = 0;
    let mut malformed: Vec<usize> = Vec::new();
    let mut i: usize = 0;
    while i < children.len()
        invariant
            i <= children.len(),
            all == children_view(children@),
            is_choice(all.subrange(0, i as int), chosen),
            chosen.is_some() ==> best == all[chosen.unwrap() as int].version().unwrap(),
            malformed@ == malformed_indices(all, i as int),
        decreases children.len() - i,
    {
        let ghost before = all.subrange(0, i as int);
        let ghost upto = all.subrange(0, i + 1);
        assert(all[i as int] == children@[i as int]@);
        assert(forall|j: int| 0 <= j < i ==> before[j] == upto[j]);
        assert(upto[i as int] == all[i as int]);
        match children[i].version() {
            Some(version) => {
                if chosen.is_none() || best < version {
                    chosen = Some(i);
                    best = version;
                }
            },
            None => {
                if children[i].is_malformed() {
                    malformed.push(i);
                }
            },
        }
        assert(is_choice(upto, chosen)) by {
            assert forall|j: int| 0 <= j < upto.len() && j != i implies upto[j] == before[j] by {}
        }
        i += 1;
    }
    assert(all.subrange(0, i as int) =~= all);
    ScanReport { chosen, malformed }
}

/// The right choice among `children`: see [`is_choice`].
pub open spec fn choice(children: Seq<ChildView>) -> Option<usize> {
    choose|chosen: Option<usize>| is_choice(children, chosen)
}

/// The legacy layout found among the `children` of `root`: the chosen child,
/// by its path; none where no child is chosen.
pub open spec fn located(root: Seq<char>, children: Seq<ChildView>) -> Option<SourceLayoutView> {
    match choice(children) {
        Some(k) => Some(SourceLayoutView::Legacy { rootfs: joined(root, children[k as int].name) }),
        None => None,
    }
}

/// Finds the legacy layout to migrate from among the children of `root`: the
/// legacy root subvolume with the highest version, as [`scan`] chooses it.
pub fn locate(root: &str, children: &Vec<Child>) -> (source: Option<SourceLayout>)
    ensures
        source is Some == located(root@, children_view(children@)) is Some,
        source matches Some(found) ==> Some(found@) == located(root@, children_view(children@)),
{
    let report = scan(children);
    proof {
        let all = children_view(children@);
        lemma_choice_unique(all, report.chosen, choice(all));
    }
    match report.chosen {
        Some(k) => {
            assert(children_view(children@)[k as int] == children@[k as int]@);
            Some(SourceLayout::Legacy { rootfs: join(root, children[k].name.as_str()) })
        },
        None => None,
    }
}

/// The choice among given children is unique: two right choices are the same.
pub proof fn lemma_choice_unique(children: Seq<ChildView>, a: Option<usize>, b: Option<usize>)
    requires
        is_choice(children, a),
        is_choice(children, b),
    ensures
        a == b,
{
    if a.is_some() && b.is_some() {
        let i = a.unwrap();
        let j = b.unwrap();
        assert(children[i as int].version().is_some());
        assert(children[j as int].version().is_some());
        if i < j {
            assert(children[i as int].version().unwrap() < children[j as int].version().unwrap());
        } else if j < i {
            assert(children[j as int].version().unwrap() < children[i as int].version().unwrap());
        }
    } else if a.is_some() {
        assert(children[a.unwrap() as int].version().is_some());
    } else if b.is_some() {
        assert(children[b.unwrap() as int].version().is_some());
    }
}

} // verus!
