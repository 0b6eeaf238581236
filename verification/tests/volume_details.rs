use manga_shelf_lib::date::is_valid_iso_date;
use manga_shelf_lib::input::{prepare_collection_details, prepare_volume_details};
use manga_shelf_lib::models::{
    AvailabilityStatus, BookCondition, CollectionItemView, UpdateVolumeDetailsInput,
};

fn empty_collection() -> CollectionItemView {
    CollectionItemView {
        is_owned: false,
        is_read: false,
        is_wishlisted: false,
        purchase_price_amount: None,
        purchase_price_currency: None,
        acquired_on: None,
        condition: BookCondition::Unknown,
        storage_location: None,
        notes: None,
    }
}

fn details(label: &str, isbn: Option<&str>, collection: CollectionItemView) -> UpdateVolumeDetailsInput {
    UpdateVolumeDetailsInput {
        display_label: label.to_string(),
        isbn: isbn.map(str::to_string),
        availability_status: AvailabilityStatus::Released,
        collection,
    }
}

#[test]
fn edited_details_are_normalized() {
    let prepared = prepare_volume_details(details(
        " 3.5 ",
        Some("978-4-08-883316-3"),
        CollectionItemView {
            is_owned: true,
            is_read: true,
            is_wishlisted: true,
            purchase_price_amount: Some(180),
            purchase_price_currency: Some("USD".to_string()),
            acquired_on: Some("2024-02-29".to_string()),
            condition: BookCondition::LikeNew,
            storage_location: Some("  書櫃 B  ".to_string()),
            notes: Some("  首刷  ".to_string()),
        },
    ))
    .expect("valid details");
    assert_eq!(prepared.display_label, "3.5");
    assert_eq!(prepared.sort_key, "0:000003.500");
    assert_eq!(prepared.isbn_10, None);
    assert_eq!(prepared.isbn_13.as_deref(), Some("9784088833163"));
    assert_eq!(prepared.availability_status, AvailabilityStatus::Released);
    let c = prepared.collection;
    assert!(c.is_owned);
    assert!(c.is_read);
    assert!(!c.is_wishlisted);
    assert_eq!(c.purchase_price_amount, Some(180));
    assert_eq!(c.purchase_price_currency.as_deref(), Some("TWD"));
    assert_eq!(c.acquired_on.as_deref(), Some("2024-02-29"));
    assert_eq!(c.condition, BookCondition::LikeNew);
    assert_eq!(c.storage_location.as_deref(), Some("書櫃 B"));
    assert_eq!(c.notes.as_deref(), Some("首刷"));
}

#[test]
fn a_blank_isbn_and_blank_texts_are_cleared() {
    let prepared = prepare_volume_details(details(
        "外傳",
        Some(" - "),
        CollectionItemView {
            purchase_price_currency: Some("TWD".to_string()),
            acquired_on: Some("   ".to_string()),
            storage_location: Some("".to_string()),
            notes: Some("\t".to_string()),
            ..empty_collection()
        },
    ))
    .expect("valid details");
    assert_eq!(prepared.sort_key, "9:外傳");
    assert_eq!(prepared.isbn_10, None);
    assert_eq!(prepared.isbn_13, None);
    assert_eq!(prepared.collection, empty_collection());
}

#[test]
fn an_isbn_10_goes_to_its_column() {
    let prepared = prepare_volume_details(details("1", Some("0-8044-2957-x"), empty_collection()))
        .expect("valid details");
    assert_eq!(prepared.isbn_10.as_deref(), Some("080442957X"));
    assert_eq!(prepared.isbn_13, None);
}

#[test]
fn invalid_edits_are_refused_with_their_codes() {
    let cases = [
        (details("  ", None, empty_collection()), "invalid_volume_label"),
        (details("1234567", None, empty_collection()), "invalid_volume_label"),
        (details("3", Some("978-4-08-883316-4"), empty_collection()), "invalid_isbn"),
        (
            details(
                "3",
                None,
                CollectionItemView {
                    acquired_on: Some("2023-02-29".to_string()),
                    ..empty_collection()
                },
            ),
            "invalid_acquired_on",
        ),
        (
            details(
                "3",
                None,
                CollectionItemView {
                    purchase_price_amount: Some(-1),
                    ..empty_collection()
                },
            ),
            "invalid_purchase_price",
        ),
    ];
    for (input, code) in cases {
        let error = prepare_volume_details(input).expect_err(code);
        assert_eq!(error.code, code);
    }
}

#[test]
fn a_price_of_zero_is_recorded_in_twd_and_no_price_has_no_currency() {
    let free = prepare_collection_details(CollectionItemView {
        purchase_price_amount: Some(0),
        ..empty_collection()
    })
    .expect("zero price");
    assert_eq!(free.purchase_price_currency.as_deref(), Some("TWD"));
    let unpriced = prepare_collection_details(CollectionItemView {
        purchase_price_currency: Some("JPY".to_string()),
        ..empty_collection()
    })
    .expect("no price");
    assert_eq!(unpriced.purchase_price_currency, None);
}

#[test]
fn a_date_is_checked_by_the_calendar() {
    assert!(is_valid_iso_date("2024-02-29"));
    assert!(is_valid_iso_date("2000-02-29"));
    assert!(!is_valid_iso_date("1900-02-29"));
    assert!(!is_valid_iso_date("2023-02-29"));
    assert!(is_valid_iso_date("2023-12-31"));
    assert!(!is_valid_iso_date("2023-04-31"));
    assert!(!is_valid_iso_date("2023-13-01"));
    assert!(!is_valid_iso_date("2023-00-10"));
    assert!(!is_valid_iso_date("2023-01-00"));
    assert!(!is_valid_iso_date("2023-1-01"));
    assert!(!is_valid_iso_date("2023/01/01"));
    assert!(!is_valid_iso_date("２０２３-01-01"));
    assert!(!is_valid_iso_date(""));
}
