use manga_shelf_lib::listing::{cover_from_columns, group_rows, MalformedRow};
use manga_shelf_lib::models::CoverMimeType;

fn s(text: &str) -> String {
    text.to_string()
}

#[test]
fn rows_are_grouped_under_their_keys_in_row_order() {
    let keys = vec![s("series-a"), s("series-b"), s("series-c")];
    let rows = vec![
        (s("series-b"), 1),
        (s("series-a"), 2),
        (s("series-b"), 3),
        (s("unknown"), 4),
        (s("series-a"), 5),
    ];
    let groups = group_rows(&keys, rows);
    assert_eq!(groups, vec![vec![2, 5], vec![1, 3], vec![]]);
}

#[test]
fn a_repeated_key_gets_nothing_the_second_time() {
    let keys = vec![s("edition"), s("edition")];
    let rows = vec![(s("edition"), "vol 1"), (s("edition"), "vol 2")];
    let groups = group_rows(&keys, rows);
    assert_eq!(groups, vec![vec!["vol 1", "vol 2"], vec![]]);
}

#[test]
fn no_keys_give_no_groups() {
    let groups = group_rows(&Vec::new(), vec![(s("a"), 1)]);
    assert!(groups.is_empty());
}

#[test]
fn a_cover_is_read_from_its_columns() {
    let cover = cover_from_columns(
        Some(s("asset-1")),
        Some(s("covers/ab.png")),
        Some(s("image/png")),
        Some(2048),
        Some(s("ab")),
    )
    .unwrap()
    .unwrap();
    assert_eq!(cover.id, "asset-1");
    assert_eq!(cover.relative_path, "covers/ab.png");
    assert_eq!(cover.mime_type, CoverMimeType::Png);
    assert_eq!(cover.byte_size, 2048);
    assert_eq!(cover.sha256, "ab");
}

#[test]
fn no_asset_id_means_no_cover() {
    assert_eq!(cover_from_columns(None, None, None, None, None), Ok(None));
    assert_eq!(
        cover_from_columns(None, Some(s("x")), Some(s("image/png")), Some(1), Some(s("d"))),
        Ok(None)
    );
}

#[test]
fn a_cover_with_a_missing_column_is_malformed() {
    assert_eq!(
        cover_from_columns(Some(s("a")), None, Some(s("image/png")), Some(1), Some(s("d"))),
        Err(MalformedRow)
    );
    assert_eq!(
        cover_from_columns(Some(s("a")), Some(s("p")), Some(s("image/png")), None, Some(s("d"))),
        Err(MalformedRow)
    );
    assert_eq!(
        cover_from_columns(Some(s("a")), Some(s("p")), Some(s("image/png")), Some(1), None),
        Err(MalformedRow)
    );
}

#[test]
fn a_cover_with_an_unknown_mime_type_is_malformed() {
    assert_eq!(
        cover_from_columns(Some(s("a")), Some(s("p")), Some(s("image/gif")), Some(1), Some(s("d"))),
        Err(MalformedRow)
    );
}
