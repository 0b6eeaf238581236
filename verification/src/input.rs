use vstd::prelude::*;

use crate::collection::{enforce_ownership_rule, with_ownership_rule};
use crate::error::AppError;
use crate::isbn::{
    is_normalized_isbn, is_normalized_isbn_text, is_valid_isbn10, is_valid_isbn13,
    normalize_isbn, normalized_isbn, valid_isbn10, valid_isbn13,
};
use crate::date::{is_iso_date, is_valid_iso_date};
use crate::models::{
    AddVolumeInput, AvailabilityStatus, CollectionItemView, PublicationStatus,
    UpdateSeriesMetadataInput, UpdateVolumeDetailsInput,
};
use crate::text::{trim, trimmed};
use crate::volume_label::{make_volume_sort_key, volume_sort_key};

verus! {

/// A required text without surrounding white space; refused with `code` when
/// nothing else is left.
pub fn required_text(value: &str, code: &str) -> (r: Result<String, AppError>)
    ensures
        trimmed(value@).len() == 0 ==> (r matches Err(e) && e.code@ == code@ && e.message@
            == "A required value is missing."@),
        trimmed(value@).len() > 0 ==> (r matches Ok(text) && text@ == trimmed(value@)),
{
    let text = trim(value);
    if text.as_str().is_empty() {
        Err(AppError::new(code, "A required value is missing."))
    } else {
        Ok(text)
    }
}

/// An optional text as it is stored: without surrounding white space, and `None`
/// when nothing else is left.
pub open spec fn optional_text_of(value: Option<Seq<char>>) -> Option<Seq<char>> {
    match value {
        Some(v) => if trimmed(v).len() > 0 {
            Some(trimmed(v))
        } else {
            None
        },
        None => None,
    }
}

/// The view of an optional string.
pub open spec fn opt_view(value: Option<String>) -> Option<Seq<char>> {
    match value {
        Some(v) => Some(v@),
        None => None,
    }
}

/// An optional text as it is stored (see `optional_text_of`).
pub fn optional_text(value: Option<String>) -> (r: Option<String>)
    ensures
        opt_view(r) == optional_text_of(opt_view(value)),
{
    match value {
        Some(v) => {
            let text = trim(v.as_str());
            if text.as_str().is_empty() {
                None
            } else {
                Some(text)
            }
        },
        None => None,
    }
}

/// New series metadata, checked and normalized.
#[derive(Debug)]
pub struct SeriesMetadataUpdate {
    pub title: String,
    pub original_title: Option<String>,
    pub description: Option<String>,
    pub publication_status: PublicationStatus,
    pub author: String,
    pub edition_id: String,
    pub edition_name: String,
    pub publisher: String,
}

/// Checks new series metadata before anything is written: the title, author,
/// edition name and publisher are required (refused with `invalid_series_metadata`
/// when only white space is given) and stored trimmed; the original title and the
/// description are optional texts.
pub fn prepare_series_metadata(input: UpdateSeriesMetadataInput) -> (r: Result<
    SeriesMetadataUpdate,
    AppError,
>)
    ensures
        r is Ok <==> (trimmed(input.title@).len() > 0 && trimmed(input.author@).len() > 0
            && trimmed(input.edition_name@).len() > 0 && trimmed(input.publisher@).len() > 0),
        r matches Err(e) ==> e.code@ == "invalid_series_metadata"@ && e.message@
            == "A required value is missing."@,
        r matches Ok(u) ==> {
            &&& u.title@ == trimmed(input.title@)
            &&& u.author@ == trimmed(input.author@)
            &&& u.edition_name@ == trimmed(input.edition_name@)
            &&& u.publisher@ == trimmed(input.publisher@)
            &&& opt_view(u.original_title) == optional_text_of(opt_view(input.original_title))
            &&& opt_view(u.description) == optional_text_of(opt_view(input.description))
            &&& u.publication_status == input.publication_status
            &&& u.edition_id == input.edition_id
        },
{
    let title = required_text(input.title.as_str(), "invalid_series_metadata")?;
    let author = required_text(input.author.as_str(), "invalid_series_metadata")?;
    let edition_name = required_text(input.edition_name.as_str(), "invalid_series_metadata")?;
    let publisher = required_text(input.publisher.as_str(), "invalid_series_metadata")?;
    let original_title = optional_text(input.original_title);
    let description = optional_text(input.description);
    Ok(SeriesMetadataUpdate {
        title,
        original_title,
        description,
        publication_status: input.publication_status,
        author,
        edition_id: input.edition_id,
        edition_name,
        publisher,
    })
}

} // verus!

verus! {

/// Where a typed ISBN goes once normalized: the ISBN-10 column when it is a valid
/// ISBN-10, else the ISBN-13 column when it is a valid ISBN-13; `None` when it is
/// neither. No ISBN fills neither column.
pub open spec fn isbn_columns(isbn: Option<Seq<char>>) -> Option<
    (Option<Seq<char>>, Option<Seq<char>>),
> {
    match isbn {
        None => Some((None, None)),
        Some(raw) => {
            let normal = normalized_isbn(raw);
            if is_valid_isbn10(normal) {
                Some((Some(normal), None))
            } else if is_valid_isbn13(normal) {
                Some((None, Some(normal)))
            } else {
                None
            }
        },
    }
}

/// The values of a volume, checked and normalized, ready to be written.
#[derive(Debug)]
pub struct PreparedVolume {
    pub display_label: String,
    pub sort_key: String,
    pub isbn_10: Option<String>,
    pub isbn_13: Option<String>,
    pub availability_status: AvailabilityStatus,
    pub collection: CollectionItemView,
}

impl PreparedVolume {
    /// The ISBN that must not be in use yet: the ISBN-10 if any, else the ISBN-13.
    pub fn isbn_for_lookup(&self) -> (isbn: Option<String>)
        ensures
            opt_view(isbn) == (if self.isbn_10 is Some {
                opt_view(self.isbn_10)
            } else {
                opt_view(self.isbn_13)
            }),
    {
        match &self.isbn_10 {
            Some(isbn) => Some(isbn.clone()),
            None => match &self.isbn_13 {
                Some(isbn) => Some(isbn.clone()),
                None => None,
            },
        }
    }
}

/// Checks a volume before it is added: its label is required and trimmed, and must
/// have a sort key (`invalid_volume_label` otherwise); a typed ISBN must normalize to
/// a valid ISBN-10 or ISBN-13 (`invalid_isbn` otherwise); an owned volume is taken
/// off the wishlist.
pub fn prepare_new_volume(input: AddVolumeInput) -> (r: Result<PreparedVolume, AppError>)
    ensures
        ({
            let label = trimmed(input.display_label@);
            &&& label.len() == 0 ==> (r matches Err(e) && e.code@ == "invalid_volume_label"@
                && e.message@ == "A required value is missing."@)
            &&& label.len() > 0 && volume_sort_key(label) is None ==> (r matches Err(e)
                && e.code@ == "invalid_volume_label"@ && e.message@
                == "The volume label is invalid."@)
            &&& label.len() > 0 && volume_sort_key(label) is Some && isbn_columns(
                opt_view(input.isbn),
            ) is None ==> (r matches Err(e) && e.code@ == "invalid_isbn"@ && e.message@
                == "The ISBN is not valid."@)
            &&& r is Ok <==> (label.len() > 0 && volume_sort_key(label) is Some && isbn_columns(
                opt_view(input.isbn),
            ) is Some)
            &&& r matches Ok(v) ==> {
                &&& v.display_label@ == label
                &&& Some(v.sort_key@) == volume_sort_key(label)
                &&& isbn_columns(opt_view(input.isbn)) == Some(
                    (opt_view(v.isbn_10), opt_view(v.isbn_13)),
                )
                &&& v.availability_status == input.availability_status
                &&& v.collection == with_ownership_rule(input.collection)
            }
        }),
{
    let display_label = required_text(input.display_label.as_str(), "invalid_volume_label")?;
    let sort_key = make_volume_sort_key(display_label.as_str())?;
    let (isbn_10, isbn_13) = match input.isbn {
        None => (None, None),
        Some(raw) => {
            let isbn = normalize_isbn(raw.as_str());
            if valid_isbn10(isbn.as_str()) {
                (Some(isbn), None)
            } else if valid_isbn13(isbn.as_str()) {
                (None, Some(isbn))
            } else {
                return Err(AppError::new("invalid_isbn", "The ISBN is not valid."));
            }
        },
    };
    let collection = enforce_ownership_rule(input.collection);
    Ok(PreparedVolume {
        display_label,
        sort_key,
        isbn_10,
        isbn_13,
        availability_status: input.availability_status,
        collection,
    })
}

/// Refuses a volume whose label is already used in its edition
/// (`volume_already_exists`), or, failing that, whose ISBN is already used anywhere
/// (`isbn_already_exists`; `None` when no ISBN was looked up).
pub fn check_volume_is_new(label_exists: bool, isbn_exists: Option<bool>) -> (r: Result<
    (),
    AppError,
>)
    ensures
        r is Ok <==> !label_exists && isbn_exists != Some(true),
        label_exists ==> (r matches Err(e) && e.code@ == "volume_already_exists"@ && e.message@
            == "This volume already exists."@),
        !label_exists && isbn_exists == Some(true) ==> (r matches Err(e) && e.code@
            == "isbn_already_exists"@ && e.message@ == "This ISBN already exists."@),
{
    if label_exists {
        return Err(AppError::new("volume_already_exists", "This volume already exists."));
    }
    if let Some(true) = isbn_exists {
        return Err(AppError::new("isbn_already_exists", "This ISBN already exists."));
    }
    Ok(())
}

/// Refuses an ISBN lookup with text that is not already a normalized ISBN.
pub fn require_normalized_isbn(isbn: &str) -> (r: Result<(), AppError>)
    ensures
        r is Ok <==> is_normalized_isbn_text(isbn@),
        r matches Err(e) ==> e.code@ == "invalid_isbn"@ && e.message@
            == "The ISBN must already be normalized."@,
{
    if !is_normalized_isbn(isbn) {
        return Err(AppError::new("invalid_isbn", "The ISBN must already be normalized."));
    }
    Ok(())
}

} // verus!

verus! {

/// Where an edited ISBN goes (see `isbn_columns`); one that is blank once spaces and
/// hyphens are gone leaves both columns empty.
pub open spec fn edited_isbn_columns(isbn: Option<Seq<char>>) -> Option<
    (Option<Seq<char>>, Option<Seq<char>>),
> {
    match isbn {
        Some(raw) => if normalized_isbn(raw).len() == 0 {
            Some((None, None))
        } else {
            isbn_columns(isbn)
        },
        None => Some((None, None)),
    }
}

/// The only currency a purchase price is recorded in.
pub open spec fn price_currency() -> Seq<char> {
    seq!['T', 'W', 'D']
}

/// An edited collection record is acceptable: a date of acquisition, when one is
/// left once trimmed, is a `YYYY-MM-DD` date, and a price is never negative.
pub open spec fn acquired_on_is_valid(c: CollectionItemView) -> bool {
    match optional_text_of(opt_view(c.acquired_on)) {
        Some(date) => is_iso_date(date),
        None => true,
    }
}

pub open spec fn purchase_price_is_valid(c: CollectionItemView) -> bool {
    match c.purchase_price_amount {
        Some(amount) => amount >= 0,
        None => true,
    }
}

/// An edited collection record as it is stored: texts trimmed and blank ones
/// cleared, the price in the one currency (or no currency without a price), and the
/// ownership rule applied.
pub open spec fn stored_collection(
    c: CollectionItemView,
    stored: CollectionItemView,
) -> bool {
    let owned_rule = with_ownership_rule(c);
    &&& stored.is_owned == c.is_owned
    &&& stored.is_read == c.is_read
    &&& stored.is_wishlisted == owned_rule.is_wishlisted
    &&& stored.purchase_price_amount == c.purchase_price_amount
    &&& opt_view(stored.purchase_price_currency) == (if c.purchase_price_amount is Some {
        Some(price_currency())
    } else {
        None::<Seq<char>>
    })
    &&& opt_view(stored.acquired_on) == optional_text_of(opt_view(c.acquired_on))
    &&& stored.condition == c.condition
    &&& opt_view(stored.storage_location) == optional_text_of(opt_view(c.storage_location))
    &&& opt_view(stored.notes) == optional_text_of(opt_view(c.notes))
}

/// Checks a collection record being edited, and brings it into the form it is
/// stored in (see `stored_collection`): an invalid date is refused with
/// `invalid_acquired_on`, a negative price with `invalid_purchase_price`.
pub fn prepare_collection_details(collection: CollectionItemView) -> (r: Result<
    CollectionItemView,
    AppError,
>)
    ensures
        !acquired_on_is_valid(collection) ==> (r matches Err(e) && e.code@
            == "invalid_acquired_on"@ && e.message@ == "The acquired date is not a valid date."@),
        acquired_on_is_valid(collection) && !purchase_price_is_valid(collection) ==> (r matches Err(
            e,
        ) && e.code@ == "invalid_purchase_price"@ && e.message@
            == "The purchase price must be a whole number of zero or more."@),
        r is Ok <==> acquired_on_is_valid(collection) && purchase_price_is_valid(collection),
        r matches Ok(stored) ==> stored_collection(collection, stored),
{
    let acquired_on = optional_text(collection.acquired_on);
    if let Some(date) = &acquired_on {
        if !is_valid_iso_date(date.as_str()) {
            return Err(
                AppError::new("invalid_acquired_on", "The acquired date is not a valid date."),
            );
        }
    }
    let currency = match collection.purchase_price_amount {
        Some(amount) => {
            if amount < 0 {
                return Err(
                    AppError::new(
                        "invalid_purchase_price",
                        "The purchase price must be a whole number of zero or more.",
                    ),
                );
            }
            let twd = "TWD";
            proof {
                reveal_strlit("TWD");
                assert(twd@ =~= price_currency());
            }
            Some(twd.to_owned())
        },
        None => None,
    };
    let stored = CollectionItemView {
        is_owned: collection.is_owned,
        is_read: collection.is_read,
        is_wishlisted: collection.is_wishlisted,
        purchase_price_amount: collection.purchase_price_amount,
        purchase_price_currency: currency,
        acquired_on,
        condition: collection.condition,
        storage_location: optional_text(collection.storage_location),
        notes: optional_text(collection.notes),
    };
    let stored = enforce_ownership_rule(stored);
    Ok(stored)
}

} // verus!

verus! {

/// Checks the edited details of a volume: its label as for a new volume
/// (`invalid_volume_label`); an ISBN that is not blank must normalize to a valid
/// ISBN-10 or ISBN-13 (`invalid_isbn`); then its collection record (see
/// `prepare_collection_details`).
pub fn prepare_volume_details(input: UpdateVolumeDetailsInput) -> (r: Result<
    PreparedVolume,
    AppError,
>)
    ensures
        ({
            let label = trimmed(input.display_label@);
            let isbn = edited_isbn_columns(opt_view(input.isbn));
            let c = input.collection;
            &&& label.len() == 0 ==> (r matches Err(e) && e.code@ == "invalid_volume_label"@
                && e.message@ == "A required value is missing."@)
            &&& label.len() > 0 && volume_sort_key(label) is None ==> (r matches Err(e)
                && e.code@ == "invalid_volume_label"@ && e.message@
                == "The volume label is invalid."@)
            &&& label.len() > 0 && volume_sort_key(label) is Some && isbn is None ==> (r matches Err(
                e,
            ) && e.code@ == "invalid_isbn"@ && e.message@ == "The ISBN is not valid."@)
            &&& label.len() > 0 && volume_sort_key(label) is Some && isbn is Some
                && !acquired_on_is_valid(c) ==> (r matches Err(e) && e.code@
                == "invalid_acquired_on"@)
            &&& label.len() > 0 && volume_sort_key(label) is Some && isbn is Some
                && acquired_on_is_valid(c) && !purchase_price_is_valid(c) ==> (r matches Err(e)
                && e.code@ == "invalid_purchase_price"@)
            &&& r is Ok <==> (label.len() > 0 && volume_sort_key(label) is Some && isbn is Some
                && acquired_on_is_valid(c) && purchase_price_is_valid(c))
            &&& r matches Ok(v) ==> {
                &&& v.display_label@ == label
                &&& Some(v.sort_key@) == volume_sort_key(label)
                &&& isbn == Some((opt_view(v.isbn_10), opt_view(v.isbn_13)))
                &&& v.availability_status == input.availability_status
                &&& stored_collection(c, v.collection)
            }
        }),
{
    let display_label = required_text(input.display_label.as_str(), "invalid_volume_label")?;
    let sort_key = make_volume_sort_key(display_label.as_str())?;
    let (isbn_10, isbn_13) = match input.isbn {
        None => (None, None),
        Some(raw) => {
            let isbn = normalize_isbn(raw.as_str());
            if isbn.as_str().is_empty() {
                (None, None)
            } else if valid_isbn10(isbn.as_str()) {
                (Some(isbn), None)
            } else if valid_isbn13(isbn.as_str()) {
                (None, Some(isbn))
            } else {
                return Err(AppError::new("invalid_isbn", "The ISBN is not valid."));
            }
        },
    };
    let collection = prepare_collection_details(input.collection)?;
    Ok(PreparedVolume {
        display_label,
        sort_key,
        isbn_10,
        isbn_13,
        availability_status: input.availability_status,
        collection,
    })
}

} // verus!
