use manga_shelf_lib::backup::{
    backup_file_name, backup_timestamp, integrity_check_passed, parse_u64, plan_update_backup,
    valid_version,
};
use manga_shelf_lib::rotation::backups_to_remove;

#[test]
fn versions_that_could_escape_are_refused() {
    assert!(valid_version("0.2.0"));
    assert!(valid_version("1.0.0-beta+5"));
    assert!(!valid_version("../0.2.0"));
    assert!(!valid_version("0.2.0/x"));
    assert!(!valid_version("0.2.0\\x"));
    assert!(!valid_version(""));
    assert!(!valid_version("０.2"));
}

#[test]
fn backup_names_carry_version_timestamp_and_identifier() {
    assert_eq!(
        backup_file_name("0.2.0", 1_786_628_000, "0123abcd"),
        "library-before-0.2.0-1786628000-0123abcd.sqlite3"
    );
    assert_eq!(
        backup_file_name("1.0.0-rc.1", 0, "ff"),
        "library-before-1.0.0-rc.1-0-ff.sqlite3"
    );
}

#[test]
fn timestamps_are_read_back_from_backup_names() {
    assert_eq!(
        backup_timestamp(&backup_file_name("0.2.0", 1_786_628_000, "0123abcd")),
        Some(1_786_628_000)
    );
    assert_eq!(
        backup_timestamp(&backup_file_name("1.0.0-rc.1", u64::MAX, "ff")),
        Some(u64::MAX)
    );
    assert_eq!(backup_timestamp("library-before-0.1.0-1-a.sqlite3"), Some(1));
    assert_eq!(backup_timestamp("library-before-0.1.0-+7-a.sqlite3"), Some(7));
    assert_eq!(backup_timestamp("library-before-0.1.0-2-b.sqlite3.partial"), None);
    assert_eq!(backup_timestamp("library-before-0.1.0-x-b.sqlite3"), None);
    assert_eq!(backup_timestamp("library-before-1-b.sqlite3"), None);
    assert_eq!(
        backup_timestamp("library-before-0-18446744073709551616-a.sqlite3"),
        None
    );
    assert_eq!(backup_timestamp("library.sqlite3"), None);
    assert_eq!(backup_timestamp("notes.txt"), None);
}

#[test]
fn decimal_parsing_matches_u64_parsing() {
    for text in ["0", "42", "+42", "007", "18446744073709551615", "18446744073709551616", "", "+", "-1", "4 2", "1_000"] {
        assert_eq!(parse_u64(text), text.parse::<u64>().ok(), "{text}");
    }
}

#[test]
fn update_backup_plan_refuses_unsafe_versions() {
    let error = plan_update_backup("../0.2.0", 3).err().expect("unsafe version");
    assert_eq!(error.code, "backup_failed");
    let error = plan_update_backup("", 3).err().expect("empty version");
    assert_eq!(error.code, "backup_failed");
}

#[test]
fn update_backup_plan_names_a_fresh_backup() {
    let plan = plan_update_backup("0.2.0", 1_786_628_000).ok().expect("plan");
    assert_eq!(plan.identifier.len(), 32);
    assert!(plan
        .identifier
        .chars()
        .all(|c| c.is_ascii_digit() || ('a'..='f').contains(&c)));
    assert_eq!(
        plan.final_name,
        format!("library-before-0.2.0-1786628000-{}.sqlite3", plan.identifier)
    );
    assert_eq!(plan.pending_name, format!("{}.partial", plan.final_name));
    assert_eq!(backup_timestamp(&plan.final_name), Some(1_786_628_000));
    let other = plan_update_backup("0.2.0", 1_786_628_000).ok().expect("second plan");
    assert_ne!(plan.identifier, other.identifier);
}

#[test]
fn integrity_check_must_say_ok() {
    assert!(integrity_check_passed("ok"));
    assert!(!integrity_check_passed("ok "));
    assert!(!integrity_check_passed("*** in database main ***"));
}

#[test]
fn rotation_removes_all_but_the_newest_three() {
    let names: Vec<String> = [
        "library-before-0.2.0-3-c.sqlite3",
        "library.sqlite3",
        "library-before-0.2.0-1-a.sqlite3",
        "library-before-0.2.0-4-d.sqlite3",
        "library-before-0.2.0-2-b.sqlite3",
    ]
    .iter()
    .map(|name| name.to_string())
    .collect();
    assert_eq!(backups_to_remove(&names), vec![2]);
}

#[test]
fn rotation_removes_oldest_first() {
    let names: Vec<String> = (1..=6)
        .rev()
        .map(|timestamp| format!("library-before-0.2.0-{timestamp}-x.sqlite3"))
        .collect();
    assert_eq!(backups_to_remove(&names), vec![5, 4, 3]);
}

#[test]
fn rotation_breaks_timestamp_ties_by_name() {
    let names: Vec<String> = [
        "library-before-0.2.0-5-b.sqlite3",
        "library-before-0.2.0-5-a.sqlite3",
        "library-before-0.2.0-5-d.sqlite3",
        "library-before-0.2.0-5-c.sqlite3",
    ]
    .iter()
    .map(|name| name.to_string())
    .collect();
    assert_eq!(backups_to_remove(&names), vec![1]);
}

#[test]
fn rotation_keeps_three_or_fewer_backups() {
    let names: Vec<String> = ["library-before-0.2.0-1-a.sqlite3", "library-before-0.2.0-2-b.sqlite3"]
        .iter()
        .map(|name| name.to_string())
        .collect();
    assert!(backups_to_remove(&names).is_empty());
    assert!(backups_to_remove(&Vec::new()).is_empty());
}
