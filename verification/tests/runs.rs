use std::collections::{BTreeMap, BTreeSet};

use btrfs_migrator::command::{command_for, Command};
use btrfs_migrator::fstab::FstabEntry;
use btrfs_migrator::layout::{Merged, Subvolume};
use btrfs_migrator::locate::Child;
use btrfs_migrator::machine::{Migration, Phase};
use btrfs_migrator::outcome::{MigrationError, MigrationOutcome, Operation, Tool};
use btrfs_migrator::request::{OverlayMount, PathKind, Reply, Request, Splash};

#[derive(Clone, Copy, Debug, PartialEq, Eq)]
enum Node {
    Directory,
    Subvolume,
    File,
}

/// A storage pool in memory, which carries requests out as a driver would.
#[derive(Clone)]
struct Pool {
    nodes: BTreeMap<String, Node>,
    mounted: BTreeMap<String, String>,
    fstab: Option<Vec<FstabEntry>>,
    answer: bool,
    fail_at: Option<usize>,
    changes: usize,
    mounts: usize,
    unmounts: usize,
    reboots: usize,
    log: Vec<Request>,
}

fn below(path: &str, base: &str) -> bool {
    path.len() > base.len() && path.starts_with(base) && path.as_bytes()[base.len()] == b'/'
}

impl Pool {
    fn new() -> Pool {
        Pool {
            nodes: BTreeMap::new(),
            mounted: BTreeMap::new(),
            fstab: None,
            answer: true,
            fail_at: None,
            changes: 0,
            mounts: 0,
            unmounts: 0,
            reboots: 0,
            log: Vec::new(),
        }
    }

    fn with(mut self, path: &str, node: Node) -> Pool {
        self.nodes.insert(path.to_string(), node);
        self
    }

    /// A pool at `/pool` in the old layout, with a legacy root subvolume.
    fn legacy() -> Pool {
        Pool::new()
            .with("/pool", Node::Directory)
            .with("/pool/@kde-linux_202501", Node::Subvolume)
            .with("/pool/@kde-linux_202501/etc", Node::Directory)
            .with("/pool/@kde-linux_202501/etc/hostname", Node::File)
            .with("/pool/@kde-linux_202501/var", Node::Directory)
            .with("/pool/@kde-linux_202501/var/lib", Node::Directory)
            .with("/pool/@etc-overlay", Node::Directory)
            .with("/pool/@etc-overlay/upper", Node::Directory)
            .with("/pool/@etc-overlay/upper/machine-id", Node::File)
            .with("/pool/@etc-overlay/work", Node::Directory)
            .with("/pool/@var-overlay", Node::Directory)
            .with("/pool/@var-overlay/upper", Node::Directory)
            .with("/pool/@var-overlay/upper/lib", Node::Directory)
            .with("/pool/@var-overlay/upper/lib/containers", Node::Directory)
            .with("/pool/@var-overlay/upper/lib/containers/stale", Node::File)
            .with("/pool/@var-overlay/work", Node::Directory)
            .with("/pool/@home", Node::Subvolume)
            .with("/pool/@home/user", Node::Directory)
            .with("/pool/@root", Node::Subvolume)
            .with("/pool/@snap", Node::Subvolume)
            .with("/pool/@containers", Node::Subvolume)
            .with("/pool/@containers/storage", Node::Directory)
            .with("/pool/@docker", Node::Subvolume)
    }

    /// A pool at `/pool` whose old trees come from an image at `/run/image`.
    fn imaged() -> Pool {
        let mut pool = Pool::legacy();
        pool.remove_tree("/pool/@kde-linux_202501");
        pool.with("/run/image", Node::Directory)
            .with("/run/image/etc", Node::Directory)
            .with("/run/image/etc/os-release", Node::File)
            .with("/run/image/var", Node::Directory)
    }

    fn kind(&self, path: &str) -> PathKind {
        match self.nodes.get(path) {
            None => PathKind::Missing,
            Some(Node::Directory) => PathKind::Directory,
            Some(Node::Subvolume) => PathKind::Subvolume,
            Some(Node::File) => PathKind::Other,
        }
    }

    fn has(&self, path: &str) -> bool {
        self.nodes.contains_key(path)
    }

    fn tree(&self, base: &str) -> Vec<(String, Node)> {
        self.nodes
            .iter()
            .filter(|(path, _)| below(path, base))
            .map(|(path, node)| (path[base.len()..].to_string(), *node))
            .collect()
    }

    fn remove_tree(&mut self, base: &str) {
        self.nodes.retain(|path, _| path != base && !below(path, base));
    }

    fn parent_exists(&self, path: &str) -> bool {
        match path.rfind('/') {
            Some(0) | None => true,
            Some(at) => self.has(&path[..at]),
        }
    }

    fn graft(&mut self, from: &str, to: &str) {
        for (rest, node) in self.tree(from) {
            self.nodes.insert(format!("{to}{rest}"), node);
        }
    }

    fn change(&mut self, request: &Request) -> bool {
        match request {
            Request::DeleteSubvolume { path, recursive } => {
                let nested = self.tree(path).iter().any(|(_, node)| *node == Node::Subvolume);
                if self.kind(path) != PathKind::Subvolume || (nested && !recursive) {
                    return false;
                }
                self.remove_tree(path);
                true
            }
            Request::CreateSubvolume { path } => {
                if self.has(path) || !self.parent_exists(path) {
                    return false;
                }
                self.nodes.insert(path.clone(), Node::Subvolume);
                true
            }
            Request::Reboot => {
                self.reboots += 1;
                true
            }
            Request::Mount { overlay } => {
                if !self.has(&overlay.lower)
                    || !self.has(&overlay.upper)
                    || !self.has(&overlay.work)
                    || !self.has(&overlay.mount_point)
                    || self.mounted.contains_key(&overlay.mount_point)
                {
                    return false;
                }
                self.mounted.insert(overlay.mount_point.clone(), overlay.upper.clone());
                self.mounts += 1;
                true
            }
            Request::Copy { from, to } => {
                if !self.has(from) || !self.parent_exists(to) {
                    return false;
                }
                self.nodes.insert(to.clone(), Node::Directory);
                self.graft(from, to);
                if let Some(upper) = self.mounted.get(from).cloned() {
                    self.graft(&upper, to);
                }
                true
            }
            Request::Unmount { mount_point } => {
                self.unmounts += 1;
                self.mounted.remove(mount_point).is_some()
            }
            Request::RemoveDirAll { path } => {
                if self.kind(path) != PathKind::Directory {
                    return false;
                }
                self.remove_tree(path);
                true
            }
            Request::CreateDirAll { path } => {
                let mut at = 0;
                while let Some(next) = path[at + 1..].find('/') {
                    at += next + 1;
                    self.nodes.entry(path[..at].to_string()).or_insert(Node::Directory);
                }
                self.nodes.entry(path.clone()).or_insert(Node::Directory);
                true
            }
            Request::Snapshot { source, target, recursive, writable } => {
                if !recursive
                    || !writable
                    || self.kind(source) != PathKind::Subvolume
                    || self.has(target)
                    || !self.parent_exists(target)
                {
                    return false;
                }
                self.nodes.insert(target.clone(), Node::Subvolume);
                self.graft(source, target);
                true
            }
            Request::Rename { from, to } => {
                if !self.has(from) || self.has(to) {
                    return false;
                }
                let node = self.nodes[from];
                let tree = self.tree(from);
                self.remove_tree(from);
                self.nodes.insert(to.clone(), node);
                for (rest, node) in tree {
                    self.nodes.insert(format!("{to}{rest}"), node);
                }
                true
            }
            _ => unreachable!("{request:?} changes nothing"),
        }
    }

    fn perform(&mut self, request: &Request) -> Reply {
        self.log.push(request.clone());
        if request.changes_something() {
            let index = self.changes;
            self.changes += 1;
            if self.fail_at == Some(index) {
                if let Request::Unmount { mount_point } = request {
                    // A failed unmount is still an attempt at one.
                    self.unmounts += 1;
                    self.mounted.remove(mount_point);
                }
                return Reply::Failed;
            }
            return if self.change(request) { Reply::Done } else { Reply::Failed };
        }
        match request {
            Request::Probe { path } => Reply::Kind(self.kind(path)),
            Request::Settle | Request::Splash { .. } | Request::Explain { .. } => Reply::Done,
            Request::ReadFstab { .. } => match &self.fstab {
                Some(entries) => Reply::Entries(entries.clone()),
                None => Reply::Failed,
            },
            Request::Confirm => Reply::Answer(self.answer),
            Request::Scan { dir, marker } => {
                if !self.has(dir) {
                    return Reply::Failed;
                }
                let names: BTreeSet<String> = self
                    .tree(dir)
                    .into_iter()
                    .map(|(rest, _)| rest[1..].split('/').next().unwrap().to_string())
                    .collect();
                Reply::Children(
                    names
                        .into_iter()
                        .map(|name| Child {
                            has_marker: self.kind(&format!("{dir}/{name}/{marker}")) == PathKind::Directory,
                            name,
                        })
                        .collect(),
                )
            }
            _ => unreachable!("{request:?} is not for a driver"),
        }
    }
}

fn drive(migration: &mut Migration, pool: &mut Pool) -> MigrationOutcome {
    for _ in 0..100 {
        let request = migration.request();
        if let Request::Finish { outcome } = request {
            assert_eq!(migration.outcome(), Some(outcome));
            assert_eq!(migration.phase(), Phase::Finished { outcome });
            return outcome;
        }
        assert_eq!(migration.outcome(), None);
        let reply = pool.perform(&request);
        assert!(migration.advance(&reply), "{request:?} was not answered by {reply:?}");
    }
    panic!("the run did not end");
}

fn migrate(pool: &mut Pool, hint: Option<&str>) -> MigrationOutcome {
    let mut migration = Migration::new("/pool".to_string(), hint.map(str::to_string));
    drive(&mut migration, pool)
}

fn entry(device: &str, mount_point: &str, filesystem_type: &str) -> FstabEntry {
    FstabEntry {
        device: device.to_string(),
        mount_point: mount_point.to_string(),
        filesystem_type: filesystem_type.to_string(),
        options: vec!["defaults".to_string()],
    }
}

fn snapshots(log: &[Request]) -> Vec<(String, String)> {
    log.iter()
        .filter_map(|request| match request {
            Request::Snapshot { source, target, recursive: true, writable: true } => {
                Some((source.clone(), target.clone()))
            }
            _ => None,
        })
        .collect()
}

fn renames(log: &[Request]) -> Vec<(String, String)> {
    log.iter()
        .filter_map(|request| match request {
            Request::Rename { from, to } => Some((from.clone(), to.clone())),
            _ => None,
        })
        .collect()
}

fn pair(a: &str, b: &str) -> (String, String) {
    (a.to_string(), b.to_string())
}

const ORIGINALS: [&str; 7] = [
    "/pool/@home",
    "/pool/@root",
    "/pool/@snap",
    "/pool/@containers",
    "/pool/@docker",
    "/pool/@etc-overlay",
    "/pool/@var-overlay",
];

fn assert_new_layout(pool: &Pool) {
    assert_eq!(pool.kind("/pool/@system"), PathKind::Subvolume);
    assert_eq!(pool.kind("/pool/@system.import"), PathKind::Missing);
    for target in ["home", "root", "snap", "var/lib/containers", "var/lib/docker"] {
        assert_eq!(pool.kind(&format!("/pool/@system/{target}")), PathKind::Subvolume, "{target}");
    }
    for dir in ["etc", "var"] {
        assert_eq!(pool.kind(&format!("/pool/@system/{dir}")), PathKind::Directory, "{dir}");
    }
    for original in ORIGINALS {
        assert_eq!(pool.kind(original), PathKind::Missing, "{original}");
        assert_ne!(pool.kind(&format!("{original}.bak")), PathKind::Missing, "{original}");
    }
    assert_eq!(pool.mounts, 2);
    assert_eq!(pool.unmounts, 2);
    assert!(pool.mounted.is_empty());
}

#[test]
fn end_to_end_from_a_legacy_subvolume() {
    let mut pool = Pool::legacy();
    assert_eq!(migrate(&mut pool, None), MigrationOutcome::Migrated);
    assert_new_layout(&pool);
    assert_eq!(
        snapshots(&pool.log),
        vec![
            pair("/pool/@home", "/pool/@system.import/home"),
            pair("/pool/@root", "/pool/@system.import/root"),
            pair("/pool/@snap", "/pool/@system.import/snap"),
            pair("/pool/@containers", "/pool/@system.import/var/lib/containers"),
            pair("/pool/@docker", "/pool/@system.import/var/lib/docker"),
        ]
    );
    // The merged directories hold the old tree and what was written over it.
    assert!(pool.has("/pool/@system/etc/hostname"));
    assert!(pool.has("/pool/@system/etc/machine-id"));
    assert!(pool.has("/pool/@system/var/lib"));
    assert!(pool.has("/pool/@system/home/user"));
    // The legacy root subvolume is read, not changed.
    assert_eq!(pool.kind("/pool/@kde-linux_202501"), PathKind::Subvolume);
    assert!(pool.has("/pool/@kde-linux_202501/etc/hostname"));
}

#[test]
fn end_to_end_sets_the_originals_aside() {
    let mut pool = Pool::legacy();
    assert_eq!(migrate(&mut pool, None), MigrationOutcome::Migrated);
    let mut expected = vec![pair("/pool/@system.import", "/pool/@system")];
    for original in ORIGINALS {
        expected.push((original.to_string(), format!("{original}.bak")));
    }
    assert_eq!(renames(&pool.log), expected);
    assert!(pool.has("/pool/@home.bak/user"));
    assert!(pool.has("/pool/@etc-overlay.bak/upper/machine-id"));
}

#[test]
fn end_to_end_from_an_image() {
    let mut pool = Pool::imaged();
    assert_eq!(migrate(&mut pool, Some("/run/image")), MigrationOutcome::Migrated);
    assert_new_layout(&pool);
    assert!(pool.has("/pool/@system/etc/os-release"));
    assert!(pool.has("/pool/@system/etc/machine-id"));
    assert!(!pool.log.iter().any(|request| matches!(request, Request::Scan { .. })));
    let mounts: Vec<&OverlayMount> = pool
        .log
        .iter()
        .filter_map(|request| match request {
            Request::Mount { overlay } => Some(overlay),
            _ => None,
        })
        .collect();
    assert_eq!(
        mounts,
        vec![
            &OverlayMount {
                lower: "/run/image/etc".to_string(),
                upper: "/pool/@etc-overlay/upper".to_string(),
                work: "/pool/@etc-overlay/work".to_string(),
                mount_point: "/run/image/etc".to_string(),
            },
            &OverlayMount {
                lower: "/run/image/var".to_string(),
                upper: "/pool/@var-overlay/upper".to_string(),
                work: "/pool/@var-overlay/work".to_string(),
                mount_point: "/run/image/var".to_string(),
            },
        ]
    );
}

#[test]
fn the_whole_sequence_of_a_clean_run() {
    let mut pool = Pool::legacy();
    pool.remove_tree("/pool/@var-overlay/upper/lib/containers");
    assert_eq!(migrate(&mut pool, None), MigrationOutcome::Migrated);
    let probe = |path: &str| Request::Probe { path: path.to_string() };
    let snapshot = |source: &str, target: &str| Request::Snapshot {
        source: source.to_string(),
        target: target.to_string(),
        recursive: true,
        writable: true,
    };
    let rename = |from: &str, to: &str| Request::Rename { from: from.to_string(), to: to.to_string() };
    let lower = |dir: &str| format!("/pool/@kde-linux_202501/{dir}");
    let overlay = |dir: &str| OverlayMount {
        lower: lower(dir),
        upper: format!("/pool/@{dir}-overlay/upper"),
        work: format!("/pool/@{dir}-overlay/work"),
        mount_point: lower(dir),
    };
    let expected = vec![
        probe("/pool/@system"),
        Request::Settle,
        Request::Splash { verb: Splash::Announce },
        probe("/pool/@system.import"),
        Request::CreateSubvolume { path: "/pool/@system.import".to_string() },
        Request::ReadFstab { path: "/pool/@etc-overlay/upper/fstab".to_string() },
        Request::Scan { dir: "/pool".to_string(), marker: "etc".to_string() },
        Request::Mount { overlay: overlay("etc") },
        Request::Copy { from: lower("etc"), to: "/pool/@system.import/etc".to_string() },
        Request::Unmount { mount_point: lower("etc") },
        Request::Mount { overlay: overlay("var") },
        Request::Copy { from: lower("var"), to: "/pool/@system.import/var".to_string() },
        Request::Unmount { mount_point: lower("var") },
        probe("/pool/@system.import/home"),
        snapshot("/pool/@home", "/pool/@system.import/home"),
        probe("/pool/@system.import/root"),
        snapshot("/pool/@root", "/pool/@system.import/root"),
        probe("/pool/@system.import/snap"),
        snapshot("/pool/@snap", "/pool/@system.import/snap"),
        probe("/pool/@system.import/var/lib/containers"),
        probe("/pool/@system.import/var/lib"),
        snapshot("/pool/@containers", "/pool/@system.import/var/lib/containers"),
        probe("/pool/@system.import/var/lib/docker"),
        probe("/pool/@system.import/var/lib"),
        snapshot("/pool/@docker", "/pool/@system.import/var/lib/docker"),
        rename("/pool/@system.import", "/pool/@system"),
        rename("/pool/@home", "/pool/@home.bak"),
        rename("/pool/@root", "/pool/@root.bak"),
        rename("/pool/@snap", "/pool/@snap.bak"),
        rename("/pool/@containers", "/pool/@containers.bak"),
        rename("/pool/@docker", "/pool/@docker.bak"),
        rename("/pool/@etc-overlay", "/pool/@etc-overlay.bak"),
        rename("/pool/@var-overlay", "/pool/@var-overlay.bak"),
        Request::Splash { verb: Splash::Show },
    ];
    assert_eq!(pool.log, expected);
}

#[test]
fn a_present_final_layout_is_left_alone() {
    for kind in [Node::Subvolume, Node::Directory, Node::File] {
        let mut pool = Pool::legacy().with("/pool/@system", kind);
        let before = pool.nodes.clone();
        assert_eq!(migrate(&mut pool, None), MigrationOutcome::AlreadyMigrated);
        assert_eq!(pool.nodes, before);
        assert_eq!(pool.changes, 0);
        assert_eq!(
            pool.log,
            vec![
                Request::Probe { path: "/pool/@system".to_string() },
                Request::Splash { verb: Splash::Show },
            ]
        );
    }
}

#[test]
fn a_second_run_changes_nothing() {
    let mut pool = Pool::legacy();
    assert_eq!(migrate(&mut pool, None), MigrationOutcome::Migrated);
    let after_first = pool.nodes.clone();
    pool.log.clear();
    pool.changes = 0;
    assert_eq!(migrate(&mut pool, None), MigrationOutcome::AlreadyMigrated);
    assert_eq!(pool.nodes, after_first);
    assert_eq!(pool.changes, 0);
    assert!(pool.log.iter().all(|request| !request.changes_something()));
}

#[test]
fn any_failure_before_promotion_leaves_a_retryable_pool() {
    let mut clean = Pool::legacy();
    assert_eq!(migrate(&mut clean, None), MigrationOutcome::Migrated);
    let mut failed_runs = 0;
    for index in 0..clean.changes {
        let mut pool = Pool::legacy();
        pool.fail_at = Some(index);
        let outcome = migrate(&mut pool, None);
        assert_eq!(pool.mounts, pool.unmounts, "failing change {index}");
        assert!(pool.mounted.is_empty(), "failing change {index}");
        if let MigrationOutcome::Failed(error) = outcome {
            failed_runs += 1;
            assert_eq!(pool.kind("/pool/@system"), PathKind::Missing, "failing change {index}");
            if error != MigrationError::Filesystem(Operation::CreateStaging) {
                assert_eq!(
                    pool.kind("/pool/@system.import"),
                    PathKind::Subvolume,
                    "failing change {index}"
                );
            }
            assert!(renames(&pool.log).iter().all(|(_, to)| to == "/pool/@system"));
            assert_eq!(pool.log.last(), Some(&Request::Splash { verb: Splash::Quit }));
            for original in ORIGINALS {
                assert_ne!(pool.kind(original), PathKind::Missing, "{original}");
            }
            // The run can be tried again, and then succeeds.
            pool.fail_at = None;
            pool.mounts = 0;
            pool.unmounts = 0;
            pool.log.clear();
            assert_eq!(migrate(&mut pool, None), MigrationOutcome::Migrated);
            // What the failed run left under the staging name is purged first.
            let purge = Request::DeleteSubvolume { path: "/pool/@system.import".to_string(), recursive: true };
            assert_eq!(
                pool.log[4] == purge,
                error != MigrationError::Filesystem(Operation::CreateStaging)
            );
            assert_new_layout(&pool);
        } else {
            assert_eq!(outcome, MigrationOutcome::Migrated);
            assert_eq!(pool.kind("/pool/@system"), PathKind::Subvolume);
        }
    }
    // Staging, two mounts, two copies, one removal, five snapshots, the promotion.
    assert_eq!(failed_runs, 12);
}

#[test]
fn every_error_has_an_input_that_gives_it() {
    let mut seen = BTreeSet::new();
    let mut record = |pool: &mut Pool, hint: Option<&str>| {
        if let MigrationOutcome::Failed(error) = migrate(pool, hint) {
            seen.insert(format!("{error:?}"));
        }
    };
    for index in 0..25 {
        let mut pool = Pool::legacy();
        pool.fail_at = Some(index);
        record(&mut pool, None);
        // Without `var/lib` in the old tree the directory has to be created.
        let mut bare = Pool::imaged();
        bare.remove_tree("/pool/@var-overlay/upper/lib");
        bare.fail_at = Some(index);
        record(&mut bare, Some("/run/image"));
    }
    let mut empty = Pool::imaged();
    record(&mut empty, None);
    let mut risky = Pool::legacy();
    risky.fstab = Some(vec![entry("/dev/sdb1", "/data", "ext4")]);
    risky.answer = false;
    record(&mut risky, None);
    let expected: BTreeSet<String> = [
        "SourceNotFound",
        "UserDeclined",
        "Command(Mount(Etc))",
        "Command(Mount(Var))",
        "Command(Copy(Etc))",
        "Command(Copy(Var))",
        "Filesystem(CreateStaging)",
        "Filesystem(RemoveTarget(Containers))",
        "Filesystem(CreateParent(Containers))",
        "Filesystem(Snapshot(Home))",
        "Filesystem(Snapshot(Root))",
        "Filesystem(Snapshot(Snap))",
        "Filesystem(Snapshot(Containers))",
        "Filesystem(Snapshot(Docker))",
        "Filesystem(Promote)",
    ]
    .into_iter()
    .map(str::to_string)
    .collect();
    assert_eq!(seen, expected);
}

#[test]
fn a_failed_copy_is_still_unmounted() {
    let mut pool = Pool::legacy();
    pool.fail_at = Some(2);
    assert_eq!(
        migrate(&mut pool, None),
        MigrationOutcome::Failed(MigrationError::Command(Tool::Copy(Merged::Etc)))
    );
    let tail: Vec<&Request> = pool.log.iter().rev().take(3).rev().collect();
    assert_eq!(
        tail,
        vec![
            &Request::Copy {
                from: "/pool/@kde-linux_202501/etc".to_string(),
                to: "/pool/@system.import/etc".to_string(),
            },
            &Request::Unmount { mount_point: "/pool/@kde-linux_202501/etc".to_string() },
            &Request::Splash { verb: Splash::Quit },
        ]
    );
    assert_eq!((pool.mounts, pool.unmounts), (1, 1));
}

#[test]
fn a_failed_mount_is_not_unmounted() {
    let mut pool = Pool::legacy();
    pool.fail_at = Some(1);
    assert_eq!(
        migrate(&mut pool, None),
        MigrationOutcome::Failed(MigrationError::Command(Tool::Mount(Merged::Etc)))
    );
    assert!(!pool.log.iter().any(|request| matches!(request, Request::Unmount { .. })));
    assert!(!pool.log.iter().any(|request| matches!(request, Request::Copy { .. })));
    assert_eq!((pool.mounts, pool.unmounts), (0, 0));
}

#[test]
fn a_failed_unmount_does_not_stop_the_run() {
    let mut pool = Pool::legacy();
    pool.fail_at = Some(3);
    assert_eq!(migrate(&mut pool, None), MigrationOutcome::Migrated);
    assert_eq!((pool.mounts, pool.unmounts), (2, 2));
}

#[test]
fn failed_archival_does_not_fail_the_run() {
    let mut pool = Pool::legacy();
    pool.remove_tree("/pool/@snap.bak");
    let mut pool = pool.with("/pool/@root.bak", Node::Directory);
    pool.remove_tree("/pool/@var-overlay/upper/lib/containers");
    assert_eq!(migrate(&mut pool, None), MigrationOutcome::Migrated);
    assert_eq!(pool.kind("/pool/@system"), PathKind::Subvolume);
    // The one that could not be set aside stays; the others are set aside.
    assert_eq!(pool.kind("/pool/@root"), PathKind::Subvolume);
    assert_eq!(pool.kind("/pool/@home.bak"), PathKind::Subvolume);
    assert_eq!(pool.kind("/pool/@var-overlay.bak"), PathKind::Directory);
    assert_eq!(renames(&pool.log).len(), 8);
}

#[test]
fn a_plain_directory_gives_way_to_the_snapshot() {
    let mut pool = Pool::legacy();
    assert_eq!(migrate(&mut pool, None), MigrationOutcome::Migrated);
    // The copy brought a plain directory with contents to the snapshot's place.
    let removal = Request::RemoveDirAll { path: "/pool/@system.import/var/lib/containers".to_string() };
    let at = pool.log.iter().position(|request| *request == removal).unwrap();
    assert_eq!(
        pool.log[at - 1],
        Request::Probe { path: "/pool/@system.import/var/lib/containers".to_string() }
    );
    assert_eq!(pool.log.iter().filter(|request| matches!(request, Request::RemoveDirAll { .. })).count(), 1);
    assert_eq!(pool.kind("/pool/@system/var/lib/containers"), PathKind::Subvolume);
    assert!(!pool.has("/pool/@system/var/lib/containers/stale"));
    assert!(pool.has("/pool/@system/var/lib/containers/storage"));
}

#[test]
fn only_a_plain_directory_is_removed() {
    for reply in [PathKind::Missing, PathKind::Subvolume, PathKind::Other] {
        let mut migration = Migration::new("/pool".to_string(), Some("/img".to_string()));
        let script = vec![
            Reply::Kind(PathKind::Missing),
            Reply::Done,
            Reply::Done,
            Reply::Kind(PathKind::Missing),
            Reply::Done,
            Reply::Failed,
            Reply::Done,
            Reply::Done,
            Reply::Done,
            Reply::Done,
            Reply::Done,
            Reply::Done,
        ];
        migration.replay(&script);
        assert_eq!(migration.phase(), Phase::ProbeTarget { volume: Subvolume::Home });
        assert!(migration.advance(&Reply::Kind(reply)));
        assert_eq!(migration.phase(), Phase::Snapshot { volume: Subvolume::Home });
    }
}

#[test]
fn missing_parents_are_created() {
    let mut pool = Pool::imaged();
    pool.remove_tree("/pool/@var-overlay/upper/lib");
    assert_eq!(migrate(&mut pool, Some("/run/image")), MigrationOutcome::Migrated);
    let created: Vec<&Request> =
        pool.log.iter().filter(|request| matches!(request, Request::CreateDirAll { .. })).collect();
    assert_eq!(created, vec![&Request::CreateDirAll { path: "/pool/@system.import/var/lib".to_string() }]);
    assert_eq!(pool.kind("/pool/@system/var/lib/docker"), PathKind::Subvolume);
}

#[test]
fn a_declined_confirmation_stops_everything() {
    let mut pool = Pool::legacy();
    pool.fstab = Some(vec![
        entry("/dev/sda2", "none", "swap"),
        entry("/dev/sdb1", "/data", "ext4"),
        entry("server:/export", "/mnt/nfs", "nfs"),
    ]);
    pool.answer = false;
    assert_eq!(migrate(&mut pool, None), MigrationOutcome::Failed(MigrationError::UserDeclined));
    assert_eq!(pool.reboots, 1);
    assert_eq!(
        pool.log[5..],
        [
            Request::ReadFstab { path: "/pool/@etc-overlay/upper/fstab".to_string() },
            Request::Splash { verb: Splash::Hide },
            Request::Explain { concerning: 2 },
            Request::Confirm,
            Request::Reboot,
            Request::Splash { verb: Splash::Quit },
        ]
    );
    let written: Vec<&Request> = pool
        .log
        .iter()
        .filter(|request| request.changes_something() && **request != Request::Reboot)
        .collect();
    assert_eq!(written, vec![&Request::CreateSubvolume { path: "/pool/@system.import".to_string() }]);
    assert_eq!(pool.kind("/pool/@system"), PathKind::Missing);
    assert_eq!(pool.kind("/pool/@system.import"), PathKind::Subvolume);
}

#[test]
fn an_accepted_confirmation_lets_the_run_go_on() {
    let mut pool = Pool::legacy();
    pool.fstab = Some(vec![entry("/dev/sdb1", "/data", "ext4")]);
    pool.answer = true;
    assert_eq!(migrate(&mut pool, None), MigrationOutcome::Migrated);
    assert_eq!(pool.reboots, 0);
    assert!(pool.log.contains(&Request::Explain { concerning: 1 }));
    assert!(pool.log.contains(&Request::Confirm));
    assert_new_layout(&pool);
}

#[test]
fn a_harmless_table_raises_no_question() {
    for fstab in [None, Some(vec![]), Some(vec![entry("/dev/sda2", "none", "swap")])] {
        let mut pool = Pool::legacy();
        pool.fstab = fstab;
        pool.answer = false;
        assert_eq!(migrate(&mut pool, None), MigrationOutcome::Migrated);
        assert!(!pool.log.contains(&Request::Confirm));
        assert!(!pool.log.iter().any(|request| matches!(request, Request::Explain { .. })));
        assert_eq!(pool.reboots, 0);
    }
}

#[test]
fn no_source_is_fatal() {
    let mut pool = Pool::legacy();
    pool.remove_tree("/pool/@kde-linux_202501/etc");
    assert_eq!(migrate(&mut pool, None), MigrationOutcome::Failed(MigrationError::SourceNotFound));
    assert_eq!(pool.kind("/pool/@system"), PathKind::Missing);
    assert_eq!(pool.kind("/pool/@system.import"), PathKind::Subvolume);
    assert_eq!(pool.changes, 1);

    let mut migration = Migration::new("/pool".to_string(), None);
    migration.replay(&vec![
        Reply::Kind(PathKind::Missing),
        Reply::Done,
        Reply::Done,
        Reply::Kind(PathKind::Missing),
        Reply::Done,
        Reply::Failed,
    ]);
    assert_eq!(
        migration.request(),
        Request::Scan { dir: "/pool".to_string(), marker: "etc".to_string() }
    );
    assert!(migration.advance(&Reply::Failed));
    assert_eq!(migration.phase(), Phase::QuitSplash { error: MigrationError::SourceNotFound });
}

#[test]
fn the_latest_legacy_subvolume_is_the_source() {
    let mut pool = Pool::legacy()
        .with("/pool/@kde-linux_202503", Node::Subvolume)
        .with("/pool/@kde-linux_202503/etc", Node::Directory)
        .with("/pool/@kde-linux_202503/var", Node::Directory)
        .with("/pool/@kde-linux_202509", Node::Subvolume)
        .with("/pool/@kde-linux_nightly", Node::Subvolume)
        .with("/pool/@kde-linux_nightly/etc", Node::Directory);
    assert_eq!(migrate(&mut pool, None), MigrationOutcome::Migrated);
    assert!(pool.log.contains(&Request::Unmount { mount_point: "/pool/@kde-linux_202503/etc".to_string() }));
    assert!(pool.log.contains(&Request::Unmount { mount_point: "/pool/@kde-linux_202503/var".to_string() }));
}

#[test]
fn a_stale_staging_subvolume_is_purged() {
    let mut pool = Pool::legacy()
        .with("/pool/@system.import", Node::Subvolume)
        .with("/pool/@system.import/home", Node::Subvolume)
        .with("/pool/@system.import/junk", Node::File);
    assert_eq!(migrate(&mut pool, None), MigrationOutcome::Migrated);
    assert!(pool.log.contains(&Request::DeleteSubvolume { path: "/pool/@system.import".to_string(), recursive: true }));
    assert!(!pool.has("/pool/@system/junk"));
    assert_new_layout(&pool);
}

#[test]
fn a_reply_of_the_wrong_shape_is_turned_down() {
    let mut migration = Migration::new("/pool".to_string(), None);
    let strangers = [
        Reply::Done,
        Reply::Failed,
        Reply::Answer(true),
        Reply::Entries(vec![]),
        Reply::Children(vec![]),
    ];
    for reply in &strangers {
        assert!(!migration.advance(reply));
        assert_eq!(migration.phase(), Phase::CheckFinal);
        assert_eq!(migration.request(), Request::Probe { path: "/pool/@system".to_string() });
    }
    assert!(migration.advance(&Reply::Kind(PathKind::Missing)));
    assert_eq!(migration.phase(), Phase::Settle);
    assert!(!migration.advance(&Reply::Kind(PathKind::Missing)));
    assert_eq!(migration.phase(), Phase::Settle);
}

#[test]
fn a_finished_run_takes_no_more_replies() {
    let mut migration = Migration::new("/pool".to_string(), None);
    assert!(migration.advance(&Reply::Kind(PathKind::Subvolume)));
    assert!(migration.advance(&Reply::Failed));
    assert_eq!(migration.outcome(), Some(MigrationOutcome::AlreadyMigrated));
    for reply in [Reply::Done, Reply::Failed, Reply::Kind(PathKind::Missing), Reply::Answer(false)] {
        assert!(!migration.advance(&reply));
        assert_eq!(migration.request(), Request::Finish { outcome: MigrationOutcome::AlreadyMigrated });
    }
}

#[test]
fn replay_is_advance_in_a_loop() {
    let script = vec![
        Reply::Kind(PathKind::Missing),
        Reply::Answer(true),
        Reply::Done,
        Reply::Failed,
        Reply::Kind(PathKind::Directory),
        Reply::Kind(PathKind::Directory),
        Reply::Done,
        Reply::Failed,
        Reply::Done,
        Reply::Done,
    ];
    let mut replayed = Migration::new("/pool/".to_string(), None);
    let requests = replayed.replay(&script);
    let mut stepped = Migration::new("/pool/".to_string(), None);
    let mut expected = Vec::new();
    for reply in &script {
        expected.push(stepped.request());
        stepped.advance(reply);
    }
    assert_eq!(requests, expected);
    assert_eq!(replayed.phase(), stepped.phase());
    assert_eq!(replayed.request(), stepped.request());
    assert_eq!(
        replayed.phase(),
        Phase::Finished { outcome: MigrationOutcome::Failed(MigrationError::Filesystem(Operation::CreateStaging)) }
    );
    assert_eq!(requests[4], Request::Probe { path: "/pool/@system.import".to_string() });
    assert_eq!(requests[6], Request::DeleteSubvolume { path: "/pool/@system.import".to_string(), recursive: true });
}

#[test]
fn the_held_overlay_is_known_while_it_is_mounted() {
    let mut pool = Pool::legacy();
    let mut migration = Migration::new("/pool".to_string(), None);
    let mut held_during = Vec::new();
    loop {
        let request = migration.request();
        if matches!(request, Request::Finish { .. }) {
            break;
        }
        held_during.push((request.clone(), migration.held_overlay()));
        let reply = pool.perform(&request);
        migration.advance(&reply);
    }
    for (request, held) in held_during {
        match request {
            Request::Copy { from, .. } => assert_eq!(held.unwrap().mount_point, from),
            Request::Unmount { mount_point } => assert_eq!(held.unwrap().mount_point, mount_point),
            _ => assert_eq!(held, None, "{request:?}"),
        }
    }
}

#[test]
fn from_arguments_needs_a_root() {
    let args = |list: &[&str]| list.iter().map(|arg| arg.to_string()).collect::<Vec<String>>();
    assert_eq!(Migration::from_arguments(&args(&[])).err(), Some(MigrationError::Argument));
    assert_eq!(Migration::from_arguments(&args(&["migrator"])).err(), Some(MigrationError::Argument));
    let scanned = Migration::from_arguments(&args(&["migrator", "/pool"])).unwrap();
    assert_eq!(scanned.request(), Request::Probe { path: "/pool/@system".to_string() });
    assert_eq!(scanned.staging(), "/pool/@system.import");
    let mut imaged = Migration::from_arguments(&args(&["migrator", "/pool", "/img", "more"])).unwrap();
    imaged.replay(&vec![
        Reply::Kind(PathKind::Missing),
        Reply::Done,
        Reply::Done,
        Reply::Kind(PathKind::Missing),
        Reply::Done,
        Reply::Entries(vec![]),
    ]);
    assert_eq!(imaged.overlay(Merged::Etc).lower, "/img/etc");
    assert_eq!(imaged.phase(), Phase::Mount { dir: Merged::Etc });
}

#[test]
fn outcomes_and_messages() {
    assert!(MigrationOutcome::Migrated.is_success());
    assert!(MigrationOutcome::AlreadyMigrated.is_success());
    assert!(!MigrationOutcome::Failed(MigrationError::SourceNotFound).is_success());
    assert_eq!(MigrationError::Argument.message(), "Not enough arguments");
    assert_eq!(MigrationError::SourceNotFound.message(), "No legacy rootfs v1 found. Migration impossible.");
    assert_eq!(MigrationError::UserDeclined.message(), "Concerning fstab entries found");
    assert_eq!(MigrationError::Command(Tool::Mount(Merged::Var)).message(), "Failed to mount compose dir");
    assert_eq!(MigrationError::Command(Tool::Copy(Merged::Etc)).message(), "Failed to copy upper dir");
    assert_eq!(MigrationError::Filesystem(Operation::CreateStaging).message(), "Problem creating subvolume");
    assert_eq!(
        MigrationError::Filesystem(Operation::RemoveTarget(Subvolume::Docker)).message(),
        "Problem removing pre-existing directory"
    );
    assert_eq!(
        MigrationError::Filesystem(Operation::CreateParent(Subvolume::Docker)).message(),
        "Problem creating parent directory"
    );
    assert_eq!(MigrationError::Filesystem(Operation::Snapshot(Subvolume::Home)).message(), "Problem creating snapshot");
    assert_eq!(MigrationError::Filesystem(Operation::Promote).message(), "Problem renaming staging subvolume");
}

fn line(program: &str, args: &[&str]) -> Option<Command> {
    Some(Command { program: program.to_string(), args: args.iter().map(|arg| arg.to_string()).collect() })
}

#[test]
fn command_lines_are_exact() {
    assert_eq!(command_for(&Request::Settle), line("udevadm", &["settle", "--timeout=8"]));
    assert_eq!(
        command_for(&Request::Splash { verb: Splash::Announce }),
        line("plymouth", &["display-message", "--text=Migrating to v2 rootfs. Can take a while."])
    );
    assert_eq!(command_for(&Request::Splash { verb: Splash::Hide }), line("plymouth", &["hide-splash"]));
    assert_eq!(command_for(&Request::Splash { verb: Splash::Show }), line("plymouth", &["show-splash"]));
    assert_eq!(command_for(&Request::Splash { verb: Splash::Quit }), line("plymouth", &["quit"]));
    assert_eq!(command_for(&Request::Reboot), line("systemctl", &["reboot"]));
    let overlay = OverlayMount {
        lower: "/pool/@kde-linux_3/etc".to_string(),
        upper: "/pool/@etc-overlay/upper".to_string(),
        work: "/pool/@etc-overlay/work".to_string(),
        mount_point: "/pool/@kde-linux_3/etc".to_string(),
    };
    assert_eq!(
        overlay.options(),
        "ro,lowerdir=/pool/@kde-linux_3/etc,upperdir=/pool/@etc-overlay/upper,\
         workdir=/pool/@etc-overlay/work,index=off,metacopy=off"
    );
    assert_eq!(
        command_for(&Request::Mount { overlay }),
        line(
            "mount",
            &[
                "--verbose",
                "--types",
                "overlay",
                "--options",
                "ro,lowerdir=/pool/@kde-linux_3/etc,upperdir=/pool/@etc-overlay/upper,\
                 workdir=/pool/@etc-overlay/work,index=off,metacopy=off",
                "overlay",
                "/pool/@kde-linux_3/etc",
            ]
        )
    );
    assert_eq!(
        command_for(&Request::Copy { from: "/a b/etc".to_string(), to: "/pool/@system.import/etc".to_string() }),
        line(
            "cp",
            &[
                "--recursive",
                "--archive",
                "--reflink=auto",
                "--no-target-directory",
                "/a b/etc",
                "/pool/@system.import/etc",
            ]
        )
    );
    assert_eq!(
        command_for(&Request::Unmount { mount_point: "/pool/@kde-linux_3/var".to_string() }),
        line("umount", &["/pool/@kde-linux_3/var"])
    );
}

#[test]
fn other_requests_have_no_command_line() {
    let path = || "/pool/x".to_string();
    let others = [
        Request::Probe { path: path() },
        Request::DeleteSubvolume { path: path(), recursive: true },
        Request::CreateSubvolume { path: path() },
        Request::ReadFstab { path: path() },
        Request::Explain { concerning: 3 },
        Request::Confirm,
        Request::Scan { dir: path(), marker: path() },
        Request::RemoveDirAll { path: path() },
        Request::CreateDirAll { path: path() },
        Request::Snapshot { source: path(), target: path(), recursive: true, writable: true },
        Request::Rename { from: path(), to: path() },
        Request::Finish { outcome: MigrationOutcome::Migrated },
    ];
    for request in others {
        assert_eq!(command_for(&request), None, "{request:?}");
    }
}
