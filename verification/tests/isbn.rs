use manga_shelf_lib::isbn::{is_normalized_isbn, normalize_isbn, valid_isbn10, valid_isbn13};

#[test]
fn normalization_drops_spaces_and_hyphens_and_uppercases() {
    assert_eq!(normalize_isbn("978-4-08-883316-3"), "9784088833163");
    assert_eq!(normalize_isbn("0 8044 2957 x"), "080442957X");
    assert_eq!(normalize_isbn(""), "");
    assert_eq!(normalize_isbn("ß-1"), "SS1");
}

#[test]
fn normalized_isbns_are_their_own_normal_form() {
    for isbn in ["080442957X", "9789572690017", "9784088833163"] {
        assert_eq!(normalize_isbn(isbn), isbn);
    }
}

#[test]
fn normalized_form_is_ten_or_thirteen_plain_characters() {
    assert!(is_normalized_isbn("080442957X"));
    assert!(is_normalized_isbn("9789572690017"));
    assert!(!is_normalized_isbn("978-957-26-9001-7"));
    assert!(!is_normalized_isbn("08044295X7"));
    assert!(!is_normalized_isbn("080442957x"));
    assert!(!is_normalized_isbn("97895726900X7"));
    assert!(!is_normalized_isbn("123"));
    assert!(!is_normalized_isbn(""));
}

#[test]
fn isbn10_checksum_is_checked() {
    assert!(valid_isbn10("080442957X"));
    assert!(valid_isbn10("4088725093"));
    assert!(!valid_isbn10("0804429570"));
    assert!(!valid_isbn10("9789572690017"));
    assert!(!valid_isbn10("080-442957X"));
}

#[test]
fn isbn13_checksum_is_checked() {
    assert!(valid_isbn13("9789572690017"));
    assert!(valid_isbn13("9784088833163"));
    assert!(!valid_isbn13("9789572690099"));
    assert!(!valid_isbn13("080442957X"));
}

#[test]
fn normalizing_twice_changes_nothing_more() {
    for raw in ["978-957-26-9001-7", "0-8044-2957-x", " 12 ab-CD ", "", "--", "isbn 4-08"] {
        let once = normalize_isbn(raw);
        assert_eq!(normalize_isbn(&once), once, "{raw}");
    }
    assert_eq!(normalize_isbn("978-957-26-9001-7"), "9789572690017");
    assert_eq!(normalize_isbn("0-8044-2957-x"), "080442957X");
}
