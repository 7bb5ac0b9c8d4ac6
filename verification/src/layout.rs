//! The on-disk naming protocol: the reserved names below the pool root and
//! the paths built from them. Boot tooling depends on these names, so each is
//! fixed here once, as a value that contracts can speak of.

use crate::text::{appended, join, joined, separator};
use vstd::prelude::*;

verus! {

/// A directory of the new layout that is filled from a merged view of the old
/// tree and its overlay.
#[derive(Clone, Copy, Debug, PartialEq, Eq, Structural)]
pub enum Merged {
    Etc,
    Var,
}

/// A designated subvolume that is carried over as a snapshot.
#[derive(Clone, Copy, Debug, PartialEq, Eq, Structural)]
pub enum Subvolume {
    Home,
    Root,
    Snap,
    Containers,
    Docker,
}

/// A path of the old layout that the new one supersedes.
#[derive(Clone, Copy, Debug, PartialEq, Eq, Structural)]
pub enum Superseded {
    Volume(Subvolume),
    Overlay(Merged),
}

/// Name of the promoted layout below the root.
pub open spec fn final_name() -> Seq<char> {
    "@system"@
}

/// Name under which the new layout is assembled.
pub open spec fn staging_name() -> Seq<char> {
    "@system.import"@
}

/// What the name of a legacy root subvolume begins with; its version follows.
pub open spec fn legacy_prefix() -> Seq<char> {
    "@kde-linux_"@
}

/// The directory that a legacy root subvolume must hold to count as one.
pub open spec fn marker_name() -> Seq<char> {
    "etc"@
}

/// What is appended to a superseded path when it is set aside.
pub open spec fn backup_suffix() -> Seq<char> {
    ".bak"@
}

/// Where the old mount table lies, relative to the root.
pub open spec fn fstab_name() -> Seq<char> {
    "@etc-overlay/upper/fstab"@
}

/// The path of the promoted layout below `root`.
pub open spec fn final_path(root: Seq<char>) -> Seq<char> {
    joined(root, final_name())
}

/// The path of the staging subvolume below `root`.
pub open spec fn staging_path(root: Seq<char>) -> Seq<char> {
    joined(root, staging_name())
}

/// The path of the old mount table below `root`.
pub open spec fn fstab_path(root: Seq<char>) -> Seq<char> {
    joined(root, fstab_name())
}

/// The path that `original` is set aside to.
pub open spec fn archived(original: Seq<char>) -> Seq<char> {
    original + backup_suffix()
}

impl Merged {
    /// Name of the directory, in the old tree and in the new layout alike.
    pub open spec fn spec_name(self) -> Seq<char> {
        match self {
            Merged::Etc => "etc"@,
            Merged::Var => "var"@,
        }
    }

    /// Name of the overlay store below the root.
    pub open spec fn spec_store(self) -> Seq<char> {
        match self {
            Merged::Etc => "@etc-overlay"@,
            Merged::Var => "@var-overlay"@,
        }
    }

    /// The writable upper tree, relative to the root.
    pub open spec fn spec_upper(self) -> Seq<char> {
        match self {
            Merged::Etc => "@etc-overlay/upper"@,
            Merged::Var => "@var-overlay/upper"@,
        }
    }

    /// The overlay's work directory, relative to the root.
    pub open spec fn spec_work(self) -> Seq<char> {
        match self {
            Merged::Etc => "@etc-overlay/work"@,
            Merged::Var => "@var-overlay/work"@,
        }
    }

    /// The directory merged after this one.
    pub open spec fn spec_next(self) -> Option<Merged> {
        match self {
            Merged::Etc => Some(Merged::Var),
            Merged::Var => None,
        }
    }

    /// The first directory to merge.
    pub open spec fn spec_first() -> Merged {
        Merged::Etc
    }

    /// Position in the order of merging.
    pub open spec fn rank(self) -> nat {
        match self {
            Merged::Etc => 0,
            Merged::Var => 1,
        }
    }

    /// Name of the directory, in the old tree and in the new layout alike.
    pub fn name(self) -> (text: &'static str)
        ensures
            text@ == self.spec_name(),
    {
        match self {
            Merged::Etc => "etc",
            Merged::Var => "var",
        }
    }

    /// Name of the overlay store below the root.
    pub fn store(self) -> (text: &'static str)
        ensures
            text@ == self.spec_store(),
    {
        match self {
            Merged::Etc => "@etc-overlay",
            Merged::Var => "@var-overlay",
        }
    }

    /// The writable upper tree, relative to the root.
    pub fn upper(self) -> (text: &'static str)
        ensures
            text@ == self.spec_upper(),
    {
        match self {
            Merged::Etc => "@etc-overlay/upper",
            Merged::Var => "@var-overlay/upper",
        }
    }

    /// The overlay's work directory, relative to the root.
    pub fn work(self) -> (text: &'static str)
        ensures
            text@ == self.spec_work(),
    {
        match self {
            Merged::Etc => "@etc-overlay/work",
            Merged::Var => "@var-overlay/work",
        }
    }

    /// The first directory to merge.
    pub fn first() -> (dir: Merged)
        ensures
            dir == Merged::spec_first(),
    {
        Merged::Etc
    }

    /// The directory merged after this one, if one is.
    pub fn next(self) -> (dir: Option<Merged>)
        ensures
            dir == self.spec_next(),
    {
        match self {
            Merged::Etc => Some(Merged::Var),
            Merged::Var => None,
        }
    }
}

impl Subvolume {
    /// Name of the subvolume below the root.
    pub open spec fn spec_name(self) -> Seq<char> {
        match self {
            Subvolume::Home => "@home"@,
            Subvolume::Root => "@root"@,
            Subvolume::Snap => "@snap"@,
            Subvolume::Containers => "@containers"@,
            Subvolume::Docker => "@docker"@,
        }
    }

    /// Where its snapshot goes, relative to the new layout.
    pub open spec fn spec_target(self) -> Seq<char> {
        match self {
            Subvolume::Home => "home"@,
            Subvolume::Root => "root"@,
            Subvolume::Snap => "snap"@,
            Subvolume::Containers => "var/lib/containers"@,
            Subvolume::Docker => "var/lib/docker"@,
        }
    }

    /// The subvolume handled after this one.
    pub open spec fn spec_next(self) -> Option<Subvolume> {
        match self {
            Subvolume::Home => Some(Subvolume::Root),
            Subvolume::Root => Some(Subvolume::Snap),
            Subvolume::Snap => Some(Subvolume::Containers),
            Subvolume::Containers => Some(Subvolume::Docker),
            Subvolume::Docker => None,
        }
    }

    /// The first subvolume to handle.
    pub open spec fn spec_first() -> Subvolume {
        Subvolume::Home
    }

    /// Position in the order of handling.
    pub open spec fn rank(self) -> nat {
        match self {
            Subvolume::Home => 0,
            Subvolume::Root => 1,
            Subvolume::Snap => 2,
            Subvolume::Containers => 3,
            Subvolume::Docker => 4,
        }
    }

    /// Name of the subvolume below the root.
    pub fn name(self) -> (text: &'static str)
        ensures
            text@ == self.spec_name(),
    {
        match self {
            Subvolume::Home => "@home",
            Subvolume::Root => "@root",
            Subvolume::Snap => "@snap",
            Subvolume::Containers => "@containers",
            Subvolume::Docker => "@docker",
        }
    }

    /// Where its snapshot goes, relative to the new layout.
    pub fn target(self) -> (text: &'static str)
        ensures
            text@ == self.spec_target(),
    {
        match self {
            Subvolume::Home => "home",
            Subvolume::Root => "root",
            Subvolume::Snap => "snap",
            Subvolume::Containers => "var/lib/containers",
            Subvolume::Docker => "var/lib/docker",
        }
    }

    /// The first subvolume to handle.
    pub fn first() -> (volume: Subvolume)
        ensures
            volume == Subvolume::spec_first(),
    {
        Subvolume::Home
    }

    /// The subvolume handled after this one, if one is.
    pub fn next(self) -> (volume: Option<Subvolume>)
        ensures
            volume == self.spec_next(),
    {
        match self {
            Subvolume::Home => Some(Subvolume::Root),
            Subvolume::Root => Some(Subvolume::Snap),
            Subvolume::Snap => Some(Subvolume::Containers),
            Subvolume::Containers => Some(Subvolume::Docker),
            Subvolume::Docker => None,
        }
    }
}

impl Superseded {
    /// Name of the superseded path below the root.
    pub open spec fn spec_name(self) -> Seq<char> {
        match self {
            Superseded::Volume(volume) => volume.spec_name(),
            Superseded::Overlay(dir) => dir.spec_store(),
        }
    }

    /// The path set aside after this one: the subvolumes first, then the
    /// overlay stores.
    pub open spec fn spec_next(self) -> Option<Superseded> {
        match self {
            Superseded::Volume(volume) => match volume.spec_next() {
                Some(following) => Some(Superseded::Volume(following)),
                None => Some(Superseded::Overlay(Merged::spec_first())),
            },
            Superseded::Overlay(dir) => match dir.spec_next() {
                Some(following) => Some(Superseded::Overlay(following)),
                None => None,
            },
        }
    }

    /// The first path to set aside.
    pub open spec fn spec_first() -> Superseded {
        Superseded::Volume(Subvolume::spec_first())
    }

    /// Position in the order of archival.
    pub open spec fn rank(self) -> nat {
        match self {
            Superseded::Volume(volume) => volume.rank(),
            Superseded::Overlay(dir) => 5 + dir.rank(),
        }
    }

    /// Name of the superseded path below the root.
    pub fn name(self) -> (text: &'static str)
        ensures
            text@ == self.spec_name(),
    {
        match self {
            Superseded::Volume(volume) => volume.name(),
            Superseded::Overlay(dir) => dir.store(),
        }
    }

    /// The first path to set aside.
    pub fn first() -> (item: Superseded)
        ensures
            item == Superseded::spec_first(),
    {
        Superseded::Volume(Subvolume::first())
    }

    /// The path set aside after this one, if one is.
    pub fn next(self) -> (item: Option<Superseded>)
        ensures
            item == self.spec_next(),
    {
        match self {
            Superseded::Volume(volume) => match volume.next() {
                Some(following) => Some(Superseded::Volume(following)),
                None => Some(Superseded::Overlay(Merged::first())),
            },
            Superseded::Overlay(dir) => match dir.next() {
                Some(following) => Some(Superseded::Overlay(following)),
                None => None,
            },
        }
    }
}

/// The order of handling counts up by one from each item to the next, and
/// ends at the last: two directories, five subvolumes, seven superseded paths.
pub proof fn lemma_ranks_count_up(dir: Merged, volume: Subvolume, item: Superseded)
    ensures
        match dir.spec_next() {
            Some(following) => following.rank() == dir.rank() + 1,
            None => dir.rank() == 1,
        },
        match volume.spec_next() {
            Some(following) => following.rank() == volume.rank() + 1,
            None => volume.rank() == 4,
        },
        match item.spec_next() {
            Some(following) => following.rank() == item.rank() + 1,
            None => item.rank() == 6,
        },
        Merged::spec_first().rank() == 0,
        Subvolume::spec_first().rank() == 0,
        Superseded::spec_first().rank() == 0,
        dir.rank() <= 1,
        volume.rank() <= 4,
        item.rank() <= 6,
{
}

/// Items of the same rank are the same item.
pub proof fn lemma_rank_determines_item(
    dirs: (Merged, Merged),
    volumes: (Subvolume, Subvolume),
    items: (Superseded, Superseded),
)
    ensures
        dirs.0.rank() == dirs.1.rank() ==> dirs.0 == dirs.1,
        volumes.0.rank() == volumes.1.rank() ==> volumes.0 == volumes.1,
        items.0.rank() == items.1.rank() ==> items.0 == items.1,
{
    match (items.0, items.1) {
        (Superseded::Volume(a), Superseded::Volume(b)) => {
            assert(a.rank() == b.rank() ==> a == b);
        },
        (Superseded::Overlay(a), Superseded::Overlay(b)) => {
            assert(a.rank() == b.rank() ==> a == b);
        },
        (Superseded::Volume(a), Superseded::Overlay(b)) => {
            assert(a.rank() <= 4);
        },
        (Superseded::Overlay(a), Superseded::Volume(b)) => {
            assert(b.rank() <= 4);
        },
    }
}

/// Path of the promoted layout below `root`.
pub fn final_path_of(root: &str) -> (path: String)
    ensures
        path@ == final_path(root@),
{
    join(root, "@system")
}

/// Path of the staging subvolume below `root`.
pub fn staging_path_of(root: &str) -> (path: String)
    ensures
        path@ == staging_path(root@),
{
    join(root, "@system.import")
}

/// Path of the old mount table below `root`.
pub fn fstab_path_of(root: &str) -> (path: String)
    ensures
        path@ == fstab_path(root@),
{
    join(root, "@etc-overlay/upper/fstab")
}

/// The path that `original` is set aside to: `original` with the backup
/// suffix appended.
pub fn archived_path_of(original: &str) -> (path: String)
    ensures
        path@ == archived(original@),
{
    appended(original, ".bak")
}

/// Name of the directory that marks a legacy root subvolume.
pub fn marker_of() -> (name: String)
    ensures
        name@ == marker_name(),
{
    "etc".to_owned()
}

/// Whether `name` is shaped like the name of a legacy root subvolume.
pub fn is_legacy_name(name: &str) -> (legacy: bool)
    ensures
        legacy == legacy_prefix().is_prefix_of(name@),
{
    crate::text::starts_with(name, "@kde-linux_")
}

/// Whether `path` is `base` itself or lies below it.
pub open spec fn within(path: Seq<char>, base: Seq<char>) -> bool {
    path == base || (base + seq![separator()]).is_prefix_of(path)
}

/// Joining puts `name` at the end of the result, after a separator wherever
/// the base is not empty.
pub proof fn lemma_joined_shape(base: Seq<char>, name: Seq<char>)
    ensures
        joined(base, name).len() >= name.len(),
        joined(base, name).subrange(joined(base, name).len() - name.len(), joined(base, name).len() as int)
            == name,
        joined(base, name + seq![separator()]) == joined(base, name) + seq![separator()],
        forall|more: Seq<char>| joined(base, name + more) == joined(base, name) + more,
{
    let j = joined(base, name);
    assert(j.subrange(j.len() - name.len(), j.len() as int) =~= name);
    assert(joined(base, name + seq![separator()]) =~= joined(base, name) + seq![separator()]);
    assert forall|more: Seq<char>| joined(base, name + more) == joined(base, name) + more by {
        assert(joined(base, name + more) =~= joined(base, name) + more);
    }
}

/// Two names that differ in some character lead to paths that are apart:
/// below the same base, neither path lies within the other, whatever is
/// appended to the first.
pub proof fn lemma_differing_names_apart(
    base: Seq<char>,
    a: Seq<char>,
    b: Seq<char>,
    i: int,
    more: Seq<char>,
)
    requires
        0 <= i < a.len(),
        i < b.len(),
        a[i] != b[i],
    ensures
        !within(joined(base, a) + more, joined(base, b)),
        !within(joined(base, b), joined(base, a) + more),
{
    let p = joined(base, a) + more;
    let q = joined(base, b);
    let stem = joined(base, Seq::<char>::empty());
    assert(joined(base, a) =~= stem + a);
    assert(q =~= stem + b);
    let at = stem.len() + i;
    assert(p[at] == a[i]);
    assert(q[at] == b[i]);
    let qs = q + seq![separator()];
    if qs.is_prefix_of(p) {
        assert(p.subrange(0, qs.len() as int)[at] == qs[at]);
    }
    let ps = p + seq![separator()];
    if ps.is_prefix_of(q) {
        assert(q.subrange(0, ps.len() as int)[at] == ps[at]);
    }
}

/// A superseded path and the path it is set aside to are both apart from the
/// final path.
pub proof fn lemma_superseded_apart_from_final(root: Seq<char>, item: Superseded)
    ensures
        !within(joined(root, item.spec_name()), final_path(root)),
        !within(final_path(root), joined(root, item.spec_name())),
        !within(archived(joined(root, item.spec_name())), final_path(root)),
        !within(final_path(root), archived(joined(root, item.spec_name()))),
{
    reveal_strlit("@system");
    reveal_strlit("@home");
    reveal_strlit("@root");
    reveal_strlit("@snap");
    reveal_strlit("@containers");
    reveal_strlit("@docker");
    reveal_strlit("@etc-overlay");
    reveal_strlit("@var-overlay");
    let name = item.spec_name();
    let i: int = if item == Superseded::Volume(Subvolume::Snap) {
        2
    } else {
        1
    };
    lemma_differing_names_apart(root, name, final_name(), i, Seq::empty());
    lemma_differing_names_apart(root, name, final_name(), i, backup_suffix());
    assert(joined(root, name) + Seq::<char>::empty() =~= joined(root, name));
}

/// The staging path and the final path are different names, and neither lies
/// within the other.
pub proof fn lemma_staging_apart_from_final(root: Seq<char>)
    ensures
        staging_path(root) != final_path(root),
        !within(staging_path(root), final_path(root)),
        !within(final_path(root), staging_path(root)),
{
    reveal_strlit("@system");
    reveal_strlit("@system.import");
    let f = final_path(root);
    let s = staging_path(root);
    let tail: Seq<char> = ".import"@;
    reveal_strlit(".import");
    assert(staging_name() =~= final_name() + tail);
    lemma_joined_shape(root, final_name());
    assert(s == f + tail);
    assert(s.len() == f.len() + 7);
    assert(s[f.len() as int] == '.');
    let fs = f + seq![separator()];
    if fs.is_prefix_of(s) {
        assert(s.subrange(0, fs.len() as int)[f.len() as int] == fs[f.len() as int]);
    }
}

/// Whether `path` lies below `base`, and is not `base` itself.
pub open spec fn below(path: Seq<char>, base: Seq<char>) -> bool {
    (base + seq![separator()]).is_prefix_of(path)
}

/// A name joined to the staging path lies below the staging path.
pub proof fn lemma_joined_to_staging_is_below(root: Seq<char>, name: Seq<char>)
    ensures
        below(joined(staging_path(root), name), staging_path(root)),
        joined(staging_path(root), name) == staging_path(root) + seq![separator()] + name,
{
    reveal_strlit("@system.import");
    let s = staging_path(root);
    lemma_joined_shape(root, staging_name());
    let tail = s.subrange(s.len() - staging_name().len(), s.len() as int);
    assert(tail == staging_name());
    assert(s.last() == tail[13]);
    let j = joined(s, name);
    assert(j =~= s + seq![separator()] + name);
    assert(j.subrange(0, (s.len() + 1) as int) =~= s + seq![separator()]);
}

/// What lies below a path neither is that path nor holds it.
pub proof fn lemma_below_is_apart(path: Seq<char>, base: Seq<char>)
    requires
        below(path, base),
    ensures
        within(path, base),
        path != base,
        !within(base, path),
{
}

/// Whatever lies within the staging path is no part of the final path, nor
/// is the final path a part of it.
pub proof fn lemma_staging_contents_apart_from_final(root: Seq<char>, path: Seq<char>)
    requires
        within(path, staging_path(root)),
    ensures
        !within(path, final_path(root)),
        !within(final_path(root), path),
{
    reveal_strlit("@system");
    reveal_strlit("@system.import");
    reveal_strlit(".import");
    let f = final_path(root);
    let s = staging_path(root);
    let tail: Seq<char> = ".import"@;
    assert(staging_name() =~= final_name() + tail);
    lemma_joined_shape(root, final_name());
    lemma_staging_apart_from_final(root);
    assert(s == f + tail);
    if path != s {
        let ss = s + seq![separator()];
        assert(ss.is_prefix_of(path));
        assert(path.subrange(0, ss.len() as int)[f.len() as int] == ss[f.len() as int]);
        assert(path[f.len() as int] == '.');
        assert(path.len() > f.len());
        let fs = f + seq![separator()];
        if fs.is_prefix_of(path) {
            assert(path.subrange(0, fs.len() as int)[f.len() as int] == fs[f.len() as int]);
        }
    }
}

} // verus!
