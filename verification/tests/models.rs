use manga_shelf_lib::error::AppError;
use manga_shelf_lib::models::{
    AvailabilityStatus, BookCondition, CollectionItemPatch, CollectionItemView, CompletionFilter,
    ContributorRole, CoverMimeType, DatePrecision, EditionFormat, MetadataSource,
    PublicationStatus, PublicationStatusFilter,
};

#[test]
fn publication_status_text_round_trips() {
    for (value, text) in [
        (PublicationStatus::Ongoing, "ongoing"),
        (PublicationStatus::Completed, "completed"),
        (PublicationStatus::Hiatus, "hiatus"),
        (PublicationStatus::Unknown, "unknown"),
    ] {
        assert_eq!(value.as_str(), text);
        assert_eq!(PublicationStatus::from_db(text), Some(value));
    }
    assert_eq!(PublicationStatus::from_db("Ongoing"), None);
    assert_eq!(PublicationStatus::from_db(""), None);
}

#[test]
fn stored_enum_texts_round_trip() {
    for (value, text) in [
        (ContributorRole::Author, "author"),
        (ContributorRole::Story, "story"),
        (ContributorRole::Art, "art"),
    ] {
        assert_eq!(value.as_str(), text);
        assert_eq!(ContributorRole::from_db(text), Some(value));
    }
    for (value, text) in [
        (EditionFormat::Tankobon, "tankobon"),
        (EditionFormat::Omnibus, "omnibus"),
        (EditionFormat::Deluxe, "deluxe"),
        (EditionFormat::BoxSet, "box_set"),
        (EditionFormat::Other, "other"),
    ] {
        assert_eq!(value.as_str(), text);
        assert_eq!(EditionFormat::from_db(text), Some(value));
    }
    for (value, text) in [
        (AvailabilityStatus::Released, "released"),
        (AvailabilityStatus::Upcoming, "upcoming"),
        (AvailabilityStatus::Unknown, "unknown"),
    ] {
        assert_eq!(value.as_str(), text);
        assert_eq!(AvailabilityStatus::from_db(text), Some(value));
    }
    for (value, text) in [
        (DatePrecision::Day, "day"),
        (DatePrecision::Month, "month"),
        (DatePrecision::Year, "year"),
        (DatePrecision::Unknown, "unknown"),
    ] {
        assert_eq!(value.as_str(), text);
        assert_eq!(DatePrecision::from_db(text), Some(value));
    }
    for (value, text) in [
        (BookCondition::New, "new"),
        (BookCondition::LikeNew, "like_new"),
        (BookCondition::Good, "good"),
        (BookCondition::Fair, "fair"),
        (BookCondition::Poor, "poor"),
        (BookCondition::Unknown, "unknown"),
    ] {
        assert_eq!(value.as_str(), text);
        assert_eq!(BookCondition::from_db(text), Some(value));
    }
    assert_eq!(EditionFormat::from_db("box set"), None);
}

#[test]
fn filter_and_source_texts() {
    assert_eq!(PublicationStatusFilter::All.as_str(), "all");
    assert_eq!(PublicationStatusFilter::Hiatus.as_str(), "hiatus");
    assert_eq!(CompletionFilter::All.as_str(), "all");
    assert_eq!(CompletionFilter::Complete.as_str(), "complete");
    assert_eq!(CompletionFilter::Incomplete.as_str(), "incomplete");
    assert_eq!(MetadataSource::Manual.as_str(), "manual");
    assert_eq!(MetadataSource::GoogleBooks.as_str(), "google_books");
    assert_eq!(MetadataSource::OpenLibrary.as_str(), "open_library");
    assert_eq!(MetadataSource::NclImport.as_str(), "ncl_import");
}

#[test]
fn cover_mime_types_round_trip() {
    for (value, text) in [
        (CoverMimeType::Jpeg, "image/jpeg"),
        (CoverMimeType::Png, "image/png"),
        (CoverMimeType::Webp, "image/webp"),
    ] {
        assert_eq!(value.content_type(), text);
        assert_eq!(CoverMimeType::from_db(text), Some(value));
    }
    assert_eq!(CoverMimeType::from_db("image/gif"), None);
}

#[test]
fn defaults_record_nothing() {
    assert_eq!(BookCondition::default(), BookCondition::Unknown);
    let view = CollectionItemView::default();
    assert!(!view.is_owned && !view.is_read && !view.is_wishlisted);
    assert_eq!(view.purchase_price_amount, None);
    assert_eq!(view.condition, BookCondition::Unknown);
    let patch = CollectionItemPatch::default();
    assert_eq!(patch.is_owned, None);
    assert_eq!(patch.notes, None);
}

#[test]
fn errors_carry_code_and_safe_message() {
    let error = AppError::database_operation();
    assert_eq!(error.code, "database_operation_failed");
    assert_eq!(error.message, "The database operation failed.");
    assert_eq!(error.to_string(), "The database operation failed.");
    let error = AppError::database_open();
    assert_eq!(error.code, "database_open_failed");
    assert_eq!(error.message, "Unable to open the local database.");
    let error = AppError::backup_failed();
    assert_eq!(error.code, "backup_failed");
    assert_eq!(error.message, "Unable to protect the library before updating.");
    let error = AppError::new("custom", "Custom message.");
    assert_eq!(error.code, "custom");
    assert_eq!(error.to_string(), "Custom message.");
}
