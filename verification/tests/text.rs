use btrfs_migrator::layout::{
    archived_path_of, final_path_of, fstab_path_of, is_legacy_name, staging_path_of, Merged,
    Subvolume, Superseded,
};
use btrfs_migrator::text::{appended, join, parent, parse_number, same_text, starts_with};

#[test]
fn join_puts_one_separator_between() {
    assert_eq!(join("/mnt", "@system"), "/mnt/@system");
    assert_eq!(join("/mnt/", "@system"), "/mnt/@system");
    assert_eq!(join("/", "etc"), "/etc");
    assert_eq!(join("", "etc"), "etc");
    assert_eq!(join("relative", "var/lib"), "relative/var/lib");
    assert_eq!(join("/mnt", ""), "/mnt/");
}

#[test]
fn join_agrees_with_std_paths() {
    for base in ["/mnt", "/mnt/", "/", "", "a/b", "pool//"] {
        for name in ["@system", "var/lib/containers", "é", "x"] {
            let expected = std::path::Path::new(base).join(name);
            assert_eq!(join(base, name), expected.to_str().unwrap(), "{base:?} + {name:?}");
        }
    }
}

#[test]
fn concat_appends() {
    assert_eq!(appended("/pool/@home", ".bak"), "/pool/@home.bak");
    assert_eq!(appended("", ""), "");
}

#[test]
fn starts_with_compares_characters() {
    assert!(starts_with("@kde-linux_5", "@kde-linux_"));
    assert!(starts_with("@kde-linux_", "@kde-linux_"));
    assert!(!starts_with("@kde-linux", "@kde-linux_"));
    assert!(!starts_with("kde-linux_5", "@kde-linux_"));
    assert!(starts_with("anything", ""));
    assert!(starts_with("", ""));
    assert!(!starts_with("", "a"));
    assert!(starts_with("éa", "é"));
    assert!(!starts_with("ea", "é"));
}

#[test]
fn same_text_is_equality() {
    assert!(same_text("swap", "swap"));
    assert!(!same_text("swap", "Swap"));
    assert!(!same_text("swap", "swap "));
    assert!(!same_text("swa", "swap"));
    assert!(same_text("", ""));
    assert!(same_text("ü", "ü"));
}

#[test]
fn parse_number_reads_decimals() {
    assert_eq!(parse_number("0"), Some(0));
    assert_eq!(parse_number("7"), Some(7));
    assert_eq!(parse_number("202505"), Some(202505));
    assert_eq!(parse_number("007"), Some(7));
    assert_eq!(parse_number("+5"), Some(5));
    assert_eq!(parse_number("18446744073709551615"), Some(u64::MAX));
    assert_eq!(parse_number("00000000000000000000000000000000000018446744073709551615"), Some(u64::MAX));
}

#[test]
fn parse_number_turns_down_everything_else() {
    assert_eq!(parse_number(""), None);
    assert_eq!(parse_number("+"), None);
    assert_eq!(parse_number("-"), None);
    assert_eq!(parse_number("-5"), None);
    assert_eq!(parse_number("++5"), None);
    assert_eq!(parse_number("5+"), None);
    assert_eq!(parse_number("12a"), None);
    assert_eq!(parse_number("a12"), None);
    assert_eq!(parse_number(" 1"), None);
    assert_eq!(parse_number("1 "), None);
    assert_eq!(parse_number("1_000"), None);
    assert_eq!(parse_number("0x10"), None);
    assert_eq!(parse_number("１２"), None);
    assert_eq!(parse_number("18446744073709551616"), None);
    assert_eq!(parse_number("18446744073709551620"), None);
    assert_eq!(parse_number("99999999999999999999999999"), None);
}

#[test]
fn parse_number_agrees_with_std() {
    let samples = [
        "", "+", "-", "0", "+0", "-0", "1", "+1", "-1", "00", "0001", "+0001", "12345678901234567890",
        "18446744073709551614", "18446744073709551615", "18446744073709551616",
        "+18446744073709551615", "184467440737095516150", "٣", "1e3", "1.0", "/", ":", "09", "9/",
        "42\n", "\t42", "+-1", "+ 1",
    ];
    for sample in samples {
        assert_eq!(parse_number(sample), sample.parse::<u64>().ok(), "{sample:?}");
    }
}

#[test]
fn parent_is_what_precedes_the_last_separator() {
    assert_eq!(parent("var/lib/containers"), Some("var/lib".to_string()));
    assert_eq!(parent("var/lib"), Some("var".to_string()));
    assert_eq!(parent("home"), None);
    assert_eq!(parent(""), None);
    assert_eq!(parent("a/"), Some("a".to_string()));
    assert_eq!(parent("/x"), Some("".to_string()));
    assert_eq!(parent("é/ü"), Some("é".to_string()));
}

#[test]
fn reserved_names_are_fixed() {
    assert_eq!(final_path_of("/pool"), "/pool/@system");
    assert_eq!(staging_path_of("/pool"), "/pool/@system.import");
    assert_eq!(fstab_path_of("/pool"), "/pool/@etc-overlay/upper/fstab");
    assert_eq!(archived_path_of("/pool/@home"), "/pool/@home.bak");
    assert_ne!(final_path_of("/pool"), staging_path_of("/pool"));
    assert_ne!(final_path_of(""), staging_path_of(""));
}

#[test]
fn legacy_names_carry_the_prefix() {
    assert!(is_legacy_name("@kde-linux_202501010000"));
    assert!(is_legacy_name("@kde-linux_"));
    assert!(is_legacy_name("@kde-linux_junk"));
    assert!(!is_legacy_name("@kde-linux"));
    assert!(!is_legacy_name("kde-linux_1"));
    assert!(!is_legacy_name("@system"));
    assert!(!is_legacy_name(""));
}

#[test]
fn merged_directories_in_order() {
    assert_eq!(Merged::first(), Merged::Etc);
    assert_eq!(Merged::Etc.next(), Some(Merged::Var));
    assert_eq!(Merged::Var.next(), None);
    assert_eq!(Merged::Etc.name(), "etc");
    assert_eq!(Merged::Var.name(), "var");
    assert_eq!(Merged::Etc.store(), "@etc-overlay");
    assert_eq!(Merged::Var.store(), "@var-overlay");
    assert_eq!(Merged::Etc.upper(), "@etc-overlay/upper");
    assert_eq!(Merged::Var.upper(), "@var-overlay/upper");
    assert_eq!(Merged::Etc.work(), "@etc-overlay/work");
    assert_eq!(Merged::Var.work(), "@var-overlay/work");
}

#[test]
fn designated_subvolumes_in_order() {
    let mut seen = Vec::new();
    let mut at = Some(Subvolume::first());
    while let Some(volume) = at {
        seen.push((volume.name(), volume.target()));
        at = volume.next();
    }
    assert_eq!(
        seen,
        vec![
            ("@home", "home"),
            ("@root", "root"),
            ("@snap", "snap"),
            ("@containers", "var/lib/containers"),
            ("@docker", "var/lib/docker"),
        ]
    );
}

#[test]
fn superseded_paths_in_order() {
    let mut seen = Vec::new();
    let mut at = Some(Superseded::first());
    while let Some(item) = at {
        seen.push(item.name());
        at = item.next();
    }
    assert_eq!(
        seen,
        vec!["@home", "@root", "@snap", "@containers", "@docker", "@etc-overlay", "@var-overlay"]
    );
}
