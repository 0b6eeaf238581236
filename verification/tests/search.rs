use manga_shelf_lib::models::{PublicationStatus, SeriesSummary};
use manga_shelf_lib::search::{escape_like_pattern, keep_series_with_owned_volumes, search_pattern};
use manga_shelf_lib::text::{text_equals, trim};

fn summary(id: &str, owned: i64) -> SeriesSummary {
    SeriesSummary {
        id: id.to_string(),
        title: id.to_string(),
        original_title: None,
        publication_status: PublicationStatus::Ongoing,
        contributors: Vec::new(),
        publishers: Vec::new(),
        representative_cover: None,
        known_volume_count: 10,
        owned_volume_count: owned,
        read_volume_count: 0,
        missing_volume_count: 10 - owned,
    }
}

#[test]
fn like_wildcards_and_escapes_are_escaped() {
    assert_eq!(escape_like_pattern("50%_off\\"), "50\\%\\_off\\\\");
    assert_eq!(escape_like_pattern("海風"), "海風");
    assert_eq!(escape_like_pattern(""), "");
}

#[test]
fn search_text_is_trimmed_then_escaped() {
    assert_eq!(search_pattern("  ' OR 1=1 --  "), "' OR 1=1 --");
    assert_eq!(search_pattern(" 100% "), "100\\%");
    assert_eq!(search_pattern("   "), "");
}

#[test]
fn dashboard_keeps_only_series_with_owned_volumes() {
    let kept = keep_series_with_owned_volumes(vec![summary("a", 0), summary("b", 6), summary("c", 0), summary("d", 1)]);
    let ids: Vec<&str> = kept.iter().map(|series| series.id.as_str()).collect();
    assert_eq!(ids, vec!["b", "d"]);
}

#[test]
fn trimming_follows_unicode_white_space() {
    assert_eq!(trim(" \t\u{3000}a b\u{a0}\n"), "a b");
    assert_eq!(trim("\u{200b}a"), "\u{200b}a");
    assert_eq!(trim(""), "");
    assert!(text_equals("上", "上"));
    assert!(!text_equals("上", "下"));
}
