use manga_shelf_lib::input::{
    check_volume_is_new, optional_text, prepare_new_volume, prepare_series_metadata,
    require_normalized_isbn, required_text,
};
use manga_shelf_lib::models::{
    AddVolumeInput, AvailabilityStatus, CollectionItemView, PublicationStatus,
    UpdateSeriesMetadataInput,
};

fn metadata(author: &str) -> UpdateSeriesMetadataInput {
    UpdateSeriesMetadataInput {
        title: " 海風冒險譚 新版 ".to_string(),
        original_title: Some("   ".to_string()),
        description: Some("更新後簡介\n".to_string()),
        publication_status: PublicationStatus::Ongoing,
        author: author.to_string(),
        edition_id: "edition-1".to_string(),
        edition_name: "續刊單行本".to_string(),
        publisher: "\u{3000}新出版社".to_string(),
    }
}

fn volume(label: &str, isbn: Option<&str>) -> AddVolumeInput {
    AddVolumeInput {
        display_label: label.to_string(),
        isbn: isbn.map(str::to_string),
        availability_status: AvailabilityStatus::Released,
        collection: CollectionItemView {
            is_owned: true,
            is_wishlisted: true,
            ..CollectionItemView::default()
        },
    }
}

#[test]
fn required_text_is_trimmed_or_refused() {
    assert_eq!(required_text("  書櫃 B  ", "code").expect("text"), "書櫃 B");
    assert_eq!(required_text("\u{3000}上\t", "code").expect("text"), "上");
    let error = required_text(" \u{3000}\n ", "invalid_series_metadata").expect_err("blank");
    assert_eq!(error.code, "invalid_series_metadata");
    assert_eq!(error.message, "A required value is missing.");
}

#[test]
fn optional_text_is_trimmed_or_none() {
    assert_eq!(optional_text(Some("  首刷  ".to_string())).as_deref(), Some("首刷"));
    assert_eq!(optional_text(Some("   ".to_string())), None);
    assert_eq!(optional_text(None), None);
}

#[test]
fn series_metadata_is_trimmed() {
    let update = prepare_series_metadata(metadata("新作者")).ok().expect("metadata");
    assert_eq!(update.title, "海風冒險譚 新版");
    assert_eq!(update.original_title, None);
    assert_eq!(update.description.as_deref(), Some("更新後簡介"));
    assert_eq!(update.author, "新作者");
    assert_eq!(update.edition_name, "續刊單行本");
    assert_eq!(update.publisher, "新出版社");
    assert_eq!(update.edition_id, "edition-1");
    assert_eq!(update.publication_status, PublicationStatus::Ongoing);
}

#[test]
fn series_metadata_requires_an_author() {
    let error = prepare_series_metadata(metadata("   ")).err().expect("empty author must fail");
    assert_eq!(error.code, "invalid_series_metadata");
}

#[test]
fn new_numeric_volume_is_normalized() {
    let prepared = prepare_new_volume(volume("11", Some("978-4-08-883316-3")))
        .ok()
        .expect("numeric volume");
    assert_eq!(prepared.display_label, "11");
    assert_eq!(prepared.sort_key, "0:000011.000");
    assert_eq!(prepared.isbn_10, None);
    assert_eq!(prepared.isbn_13.as_deref(), Some("9784088833163"));
    assert_eq!(prepared.isbn_for_lookup().as_deref(), Some("9784088833163"));
    assert!(prepared.collection.is_owned);
    assert!(!prepared.collection.is_wishlisted);
}

#[test]
fn new_special_volume_sorts_after_numbers() {
    let prepared = prepare_new_volume(volume(" 外傳 ", None)).ok().expect("special volume");
    assert_eq!(prepared.display_label, "外傳");
    assert_eq!(prepared.sort_key, "9:外傳");
    assert_eq!(prepared.isbn_for_lookup(), None);
    let prepared = prepare_new_volume(volume("12.5", Some("0-8044-2957-x")))
        .ok()
        .expect("isbn-10 volume");
    assert_eq!(prepared.sort_key, "0:000012.500");
    assert_eq!(prepared.isbn_10.as_deref(), Some("080442957X"));
    assert_eq!(prepared.isbn_13, None);
}

#[test]
fn new_volume_errors_come_in_order() {
    let error = prepare_new_volume(volume("  ", Some("bad"))).err().expect("blank label");
    assert_eq!(error.code, "invalid_volume_label");
    assert_eq!(error.message, "A required value is missing.");
    let error = prepare_new_volume(volume("1234567", Some("bad"))).err().expect("long label");
    assert_eq!(error.code, "invalid_volume_label");
    assert_eq!(error.message, "The volume label is invalid.");
    let error = prepare_new_volume(volume("3", Some("9789572690099"))).err().expect("bad isbn");
    assert_eq!(error.code, "invalid_isbn");
    assert_eq!(error.message, "The ISBN is not valid.");
}

#[test]
fn existing_labels_and_isbns_are_refused() {
    assert!(check_volume_is_new(false, None).is_ok());
    assert!(check_volume_is_new(false, Some(false)).is_ok());
    assert_eq!(check_volume_is_new(true, Some(true)).unwrap_err().code, "volume_already_exists");
    assert_eq!(check_volume_is_new(false, Some(true)).unwrap_err().code, "isbn_already_exists");
}

#[test]
fn isbn_lookup_requires_normalized_text() {
    assert!(require_normalized_isbn("080442957X").is_ok());
    assert!(require_normalized_isbn("9789572690099").is_ok());
    let error = require_normalized_isbn("978-957-26-9001-7").unwrap_err();
    assert_eq!(error.code, "invalid_isbn");
    assert_eq!(error.message, "The ISBN must already be normalized.");
}
