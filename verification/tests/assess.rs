use btrfs_migrator::cleanup::{first_subvolume, pattern_below, Candidate};
use btrfs_migrator::fstab::{assess, FstabEntry};
use btrfs_migrator::locate::{locate, scan, Child, ScanReport, SourceLayout};

fn entry(device: &str, mount_point: &str, filesystem_type: &str, options: &[&str]) -> FstabEntry {
    FstabEntry {
        device: device.to_string(),
        mount_point: mount_point.to_string(),
        filesystem_type: filesystem_type.to_string(),
        options: options.iter().map(|option| option.to_string()).collect(),
    }
}

fn child(name: &str, has_marker: bool) -> Child {
    Child { name: name.to_string(), has_marker }
}

#[test]
fn empty_table_is_harmless() {
    assert_eq!(assess(&Vec::new()), 0);
}

#[test]
fn swap_is_not_concerning() {
    let swap = entry("/dev/sda2", "none", "swap", &["sw"]);
    assert!(!swap.is_concerning());
    assert_eq!(assess(&vec![swap.clone(), swap]), 0);
}

#[test]
fn everything_but_swap_is_concerning() {
    for filesystem_type in ["ext4", "btrfs", "vfat", "tmpfs", "nfs", "", "Swap", "swap ", "swapfile"] {
        let other = entry("/dev/sda1", "/data", filesystem_type, &["defaults"]);
        assert!(other.is_concerning(), "{filesystem_type:?}");
        assert_eq!(assess(&vec![other]), 1, "{filesystem_type:?}");
    }
}

#[test]
fn assess_counts_the_concerning_entries() {
    let table = vec![
        entry("/dev/mapper/root", "/", "ext4", &["noatime", "errors=remount-ro"]),
        entry("UUID=378f3c86", "/boot", "ext2", &["defaults"]),
        entry("/dev/mapper/swap_1", "none", "swap", &["sw"]),
        entry("UUID=be8a49b9", "/mnt/raid", "ext4", &["errors=remount-ro", "user"]),
        entry("/swapfile", "none", "swap", &[]),
    ];
    assert_eq!(assess(&table), 3);
}

#[test]
fn scan_takes_the_highest_version() {
    let children = vec![
        child("@home", true),
        child("@kde-linux_202501", true),
        child("@kde-linux_202503", true),
        child("@kde-linux_202502", true),
        child("@system.import", false),
    ];
    assert_eq!(scan(&children), ScanReport { chosen: Some(2), malformed: vec![] });
}

#[test]
fn scan_rejects_decoys_without_the_marker() {
    let children = vec![
        child("@kde-linux_9", false),
        child("@kde-linux_3", true),
        child("@kde-linux_7", false),
    ];
    assert_eq!(scan(&children).chosen, Some(1));
}

#[test]
fn scan_passes_over_malformed_versions() {
    let children = vec![
        child("@kde-linux_", true),
        child("@kde-linux_12", true),
        child("@kde-linux_v13", true),
        child("@kde-linux_14.1", true),
        child("@kde-linux_-1", true),
        child("@kde-linux_99999999999999999999", true),
        child("@kde-linux_bad", false),
    ];
    assert_eq!(scan(&children), ScanReport { chosen: Some(1), malformed: vec![0, 2, 3, 4, 5] });
}

#[test]
fn scan_finds_nothing_among_strangers() {
    let children = vec![
        child("@home", true),
        child("@kde-linux", true),
        child("kde-linux_5", true),
        child("@KDE-LINUX_5", true),
        child("@kde-linux_5", false),
        child("@kde-linux_five", true),
    ];
    assert_eq!(scan(&children), ScanReport { chosen: None, malformed: vec![5] });
    assert_eq!(scan(&Vec::new()), ScanReport { chosen: None, malformed: vec![] });
}

#[test]
fn scan_keeps_the_earliest_of_equal_versions() {
    let children = vec![
        child("@kde-linux_4", true),
        child("@kde-linux_7", true),
        child("@kde-linux_07", true),
        child("@kde-linux_+7", true),
    ];
    assert_eq!(scan(&children).chosen, Some(1));
}

#[test]
fn scan_takes_version_zero_and_the_largest() {
    assert_eq!(scan(&vec![child("@kde-linux_0", true)]).chosen, Some(0));
    let children = vec![child("@kde-linux_18446744073709551615", true), child("@kde-linux_0", true)];
    assert_eq!(scan(&children).chosen, Some(0));
}

#[test]
fn child_version_needs_prefix_marker_and_number() {
    assert_eq!(child("@kde-linux_42", true).version(), Some(42));
    assert_eq!(child("@kde-linux_42", false).version(), None);
    assert_eq!(child("@kde-linuy_42", true).version(), None);
    assert_eq!(child("@kde-linux_4_2", true).version(), None);
    assert!(child("@kde-linux_4_2", true).is_malformed());
    assert!(!child("@kde-linux_4_2", false).is_malformed());
    assert!(!child("@kde-linux_42", true).is_malformed());
    assert!(!child("@home", true).is_malformed());
}

#[test]
fn locate_names_the_chosen_child_by_its_path() {
    let children = vec![child("@home", true), child("@kde-linux_3", true), child("@kde-linux_2", true)];
    assert_eq!(
        locate("/pool", &children),
        Some(SourceLayout::Legacy { rootfs: "/pool/@kde-linux_3".to_string() })
    );
    assert_eq!(
        locate("/pool/", &children),
        Some(SourceLayout::Legacy { rootfs: "/pool/@kde-linux_3".to_string() })
    );
    assert_eq!(locate("/pool", &vec![child("@kde-linux_3", false)]), None);
    assert_eq!(locate("/pool", &Vec::new()), None);
}

#[test]
fn source_layout_base() {
    assert_eq!(SourceLayout::Legacy { rootfs: "/pool/@kde-linux_1".to_string() }.base(), "/pool/@kde-linux_1");
    assert_eq!(SourceLayout::Image { mount: "/run/image".to_string() }.base(), "/run/image");
}

#[test]
fn cleanup_takes_the_first_subvolume() {
    let file = Candidate { is_directory: false, is_subvolume: false };
    let odd = Candidate { is_directory: false, is_subvolume: true };
    let directory = Candidate { is_directory: true, is_subvolume: false };
    let subvolume = Candidate { is_directory: true, is_subvolume: true };
    assert_eq!(first_subvolume(&vec![]), None);
    assert_eq!(first_subvolume(&vec![file, odd, directory]), None);
    assert_eq!(first_subvolume(&vec![subvolume]), Some(0));
    assert_eq!(first_subvolume(&vec![file, directory, subvolume, subvolume]), Some(2));
    assert_eq!(first_subvolume(&vec![odd, subvolume, file]), Some(1));
    assert_eq!(pattern_below("/work"), "/work/kde-linux_*");
    assert_eq!(pattern_below("/work/"), "/work/kde-linux_*");
}
