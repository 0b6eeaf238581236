use vstd::prelude::*;

use std::collections::BTreeMap;

use crate::text::text_equals;

verus! {

/// The publication status of a series or edition.
#[derive(Debug, Clone, Copy, PartialEq, Eq, Structural)]
pub enum PublicationStatus {
    Ongoing,
    Completed,
    Hiatus,
    Unknown,
}

impl PublicationStatus {
    /// The text that stands for this value in the database and in messages.
    pub open spec fn text(self) -> Seq<char> {
        match self {
            PublicationStatus::Ongoing => "ongoing"@,
            PublicationStatus::Completed => "completed"@,
            PublicationStatus::Hiatus => "hiatus"@,
            PublicationStatus::Unknown => "unknown"@,
        }
    }

    /// The value that a text stands for, if any.
    pub open spec fn from_text(s: Seq<char>) -> Option<PublicationStatus> {
        if s == "ongoing"@ {
            Some(PublicationStatus::Ongoing)
        } else if s == "completed"@ {
            Some(PublicationStatus::Completed)
        } else if s == "hiatus"@ {
            Some(PublicationStatus::Hiatus)
        } else if s == "unknown"@ {
            Some(PublicationStatus::Unknown)
        } else {
            None
        }
    }

    /// The text that stands for this value.
    pub fn as_str(self) -> (text: &'static str)
        ensures
            text@ == self.text(),
    {
        match self {
            PublicationStatus::Ongoing => "ongoing",
            PublicationStatus::Completed => "completed",
            PublicationStatus::Hiatus => "hiatus",
            PublicationStatus::Unknown => "unknown",
        }
    }

    /// The value stored in the database as `value`; `None` for any other text.
    pub fn from_db(value: &str) -> (parsed: Option<PublicationStatus>)
        ensures
            parsed == PublicationStatus::from_text(value@),
    {
        if text_equals(value, "ongoing") {
            Some(PublicationStatus::Ongoing)
        } else if text_equals(value, "completed") {
            Some(PublicationStatus::Completed)
        } else if text_equals(value, "hiatus") {
            Some(PublicationStatus::Hiatus)
        } else if text_equals(value, "unknown") {
            Some(PublicationStatus::Unknown)
        } else {
            None
        }
    }
}

/// The publication status a series list is filtered by; `All` keeps every status.
#[derive(Debug, Clone, Copy, PartialEq, Eq, Structural)]
pub enum PublicationStatusFilter {
    All,
    Ongoing,
    Completed,
    Hiatus,
    Unknown,
}

impl PublicationStatusFilter {
    /// The text that stands for this value in the database and in messages.
    pub open spec fn text(self) -> Seq<char> {
        match self {
            PublicationStatusFilter::All => "all"@,
            PublicationStatusFilter::Ongoing => "ongoing"@,
            PublicationStatusFilter::Completed => "completed"@,
            PublicationStatusFilter::Hiatus => "hiatus"@,
            PublicationStatusFilter::Unknown => "unknown"@,
        }
    }

    /// The value that a text stands for, if any.
    pub open spec fn from_text(s: Seq<char>) -> Option<PublicationStatusFilter> {
        if s == "all"@ {
            Some(PublicationStatusFilter::All)
        } else if s == "ongoing"@ {
            Some(PublicationStatusFilter::Ongoing)
        } else if s == "completed"@ {
            Some(PublicationStatusFilter::Completed)
        } else if s == "hiatus"@ {
            Some(PublicationStatusFilter::Hiatus)
        } else if s == "unknown"@ {
            Some(PublicationStatusFilter::Unknown)
        } else {
            None
        }
    }

    /// The text that stands for this value.
    pub fn as_str(self) -> (text: &'static str)
        ensures
            text@ == self.text(),
    {
        match self {
            PublicationStatusFilter::All => "all",
            PublicationStatusFilter::Ongoing => "ongoing",
            PublicationStatusFilter::Completed => "completed",
            PublicationStatusFilter::Hiatus => "hiatus",
            PublicationStatusFilter::Unknown => "unknown",
        }
    }
}

/// Whether a series list keeps all series, only complete ones, or only incomplete ones.
#[derive(Debug, Clone, Copy, PartialEq, Eq, Structural)]
pub enum CompletionFilter {
    All,
    Complete,
    Incomplete,
}

impl CompletionFilter {
    /// The text that stands for this value in the database and in messages.
    pub open spec fn text(self) -> Seq<char> {
        match self {
            CompletionFilter::All => "all"@,
            CompletionFilter::Complete => "complete"@,
            CompletionFilter::Incomplete => "incomplete"@,
        }
    }

    /// The value that a text stands for, if any.
    pub open spec fn from_text(s: Seq<char>) -> Option<CompletionFilter> {
        if s == "all"@ {
            Some(CompletionFilter::All)
        } else if s == "complete"@ {
            Some(CompletionFilter::Complete)
        } else if s == "incomplete"@ {
            Some(CompletionFilter::Incomplete)
        } else {
            None
        }
    }

    /// The text that stands for this value.
    pub fn as_str(self) -> (text: &'static str)
        ensures
            text@ == self.text(),
    {
        match self {
            CompletionFilter::All => "all",
            CompletionFilter::Complete => "complete",
            CompletionFilter::Incomplete => "incomplete",
        }
    }
}

/// The part a contributor played in a series.
#[derive(Debug, Clone, Copy, PartialEq, Eq, Structural)]
pub enum ContributorRole {
    Author,
    Story,
    Art,
}

impl ContributorRole {
    /// The text that stands for this value in the database and in messages.
    pub open spec fn text(self) -> Seq<char> {
        match self {
            ContributorRole::Author => "author"@,
            ContributorRole::Story => "story"@,
            ContributorRole::Art => "art"@,
        }
    }

    /// The value that a text stands for, if any.
    pub open spec fn from_text(s: Seq<char>) -> Option<ContributorRole> {
        if s == "author"@ {
            Some(ContributorRole::Author)
        } else if s == "story"@ {
            Some(ContributorRole::Story)
        } else if s == "art"@ {
            Some(ContributorRole::Art)
        } else {
            None
        }
    }

    /// The text that stands for this value.
    pub fn as_str(self) -> (text: &'static str)
        ensures
            text@ == self.text(),
    {
        match self {
            ContributorRole::Author => "author",
            ContributorRole::Story => "story",
            ContributorRole::Art => "art",
        }
    }

    /// The value stored in the database as `value`; `None` for any other text.
    pub fn from_db(value: &str) -> (parsed: Option<ContributorRole>)
        ensures
            parsed == ContributorRole::from_text(value@),
    {
        if text_equals(value, "author") {
            Some(ContributorRole::Author)
        } else if text_equals(value, "story") {
            Some(ContributorRole::Story)
        } else if text_equals(value, "art") {
            Some(ContributorRole::Art)
        } else {
            None
        }
    }
}

/// The physical format of an edition.
#[derive(Debug, Clone, Copy, PartialEq, Eq, Structural)]
pub enum EditionFormat {
    Tankobon,
    Omnibus,
    Deluxe,
    BoxSet,
    Other,
}

impl EditionFormat {
    /// The text that stands for this value in the database and in messages.
    pub open spec fn text(self) -> Seq<char> {
        match self {
            EditionFormat::Tankobon => "tankobon"@,
            EditionFormat::Omnibus => "omnibus"@,
            EditionFormat::Deluxe => "deluxe"@,
            EditionFormat::BoxSet => "box_set"@,
            EditionFormat::Other => "other"@,
        }
    }

    /// The value that a text stands for, if any.
    pub open spec fn from_text(s: Seq<char>) -> Option<EditionFormat> {
        if s == "tankobon"@ {
            Some(EditionFormat::Tankobon)
        } else if s == "omnibus"@ {
            Some(EditionFormat::Omnibus)
        } else if s == "deluxe"@ {
            Some(EditionFormat::Deluxe)
        } else if s == "box_set"@ {
            Some(EditionFormat::BoxSet)
        } else if s == "other"@ {
            Some(EditionFormat::Other)
        } else {
            None
        }
    }

    /// The text that stands for this value.
    pub fn as_str(self) -> (text: &'static str)
        ensures
            text@ == self.text(),
    {
        match self {
            EditionFormat::Tankobon => "tankobon",
            EditionFormat::Omnibus => "omnibus",
            EditionFormat::Deluxe => "deluxe",
            EditionFormat::BoxSet => "box_set",
            EditionFormat::Other => "other",
        }
    }

    /// The value stored in the database as `value`; `None` for any other text.
    pub fn from_db(value: &str) -> (parsed: Option<EditionFormat>)
        ensures
            parsed == EditionFormat::from_text(value@),
    {
        if text_equals(value, "tankobon") {
            Some(EditionFormat::Tankobon)
        } else if text_equals(value, "omnibus") {
            Some(EditionFormat::Omnibus)
        } else if text_equals(value, "deluxe") {
            Some(EditionFormat::Deluxe)
        } else if text_equals(value, "box_set") {
            Some(EditionFormat::BoxSet)
        } else if text_equals(value, "other") {
            Some(EditionFormat::Other)
        } else {
            None
        }
    }
}

/// Whether a volume has been released.
#[derive(Debug, Clone, Copy, PartialEq, Eq, Structural)]
pub enum AvailabilityStatus {
    Released,
    Upcoming,
    Unknown,
}

impl AvailabilityStatus {
    /// The text that stands for this value in the database and in messages.
    pub open spec fn text(self) -> Seq<char> {
        match self {
            AvailabilityStatus::Released => "released"@,
            AvailabilityStatus::Upcoming => "upcoming"@,
            AvailabilityStatus::Unknown => "unknown"@,
        }
    }

    /// The value that a text stands for, if any.
    pub open spec fn from_text(s: Seq<char>) -> Option<AvailabilityStatus> {
        if s == "released"@ {
            Some(AvailabilityStatus::Released)
        } else if s == "upcoming"@ {
            Some(AvailabilityStatus::Upcoming)
        } else if s == "unknown"@ {
            Some(AvailabilityStatus::Unknown)
        } else {
            None
        }
    }

    /// The text that stands for this value.
    pub fn as_str(self) -> (text: &'static str)
        ensures
            text@ == self.text(),
    {
        match self {
            AvailabilityStatus::Released => "released",
            AvailabilityStatus::Upcoming => "upcoming",
            AvailabilityStatus::Unknown => "unknown",
        }
    }

    /// The value stored in the database as `value`; `None` for any other text.
    pub fn from_db(value: &str) -> (parsed: Option<AvailabilityStatus>)
        ensures
            parsed == AvailabilityStatus::from_text(value@),
    {
        if text_equals(value, "released") {
            Some(AvailabilityStatus::Released)
        } else if text_equals(value, "upcoming") {
            Some(AvailabilityStatus::Upcoming)
        } else if text_equals(value, "unknown") {
            Some(AvailabilityStatus::Unknown)
        } else {
            None
        }
    }
}

/// How precise a release date is.
#[derive(Debug, Clone, Copy, PartialEq, Eq, Structural)]
pub enum DatePrecision {
    Day,
    Month,
    Year,
    Unknown,
}

impl DatePrecision {
    /// The text that stands for this value in the database and in messages.
    pub open spec fn text(self) -> Seq<char> {
        match self {
            DatePrecision::Day => "day"@,
            DatePrecision::Month => "month"@,
            DatePrecision::Year => "year"@,
            DatePrecision::Unknown => "unknown"@,
        }
    }

    /// The value that a text stands for, if any.
    pub open spec fn from_text(s: Seq<char>) -> Option<DatePrecision> {
        if s == "day"@ {
            Some(DatePrecision::Day)
        } else if s == "month"@ {
            Some(DatePrecision::Month)
        } else if s == "year"@ {
            Some(DatePrecision::Year)
        } else if s == "unknown"@ {
            Some(DatePrecision::Unknown)
        } else {
            None
        }
    }

    /// The text that stands for this value.
    pub fn as_str(self) -> (text: &'static str)
        ensures
            text@ == self.text(),
    {
        match self {
            DatePrecision::Day => "day",
            DatePrecision::Month => "month",
            DatePrecision::Year => "year",
            DatePrecision::Unknown => "unknown",
        }
    }

    /// The value stored in the database as `value`; `None` for any other text.
    pub fn from_db(value: &str) -> (parsed: Option<DatePrecision>)
        ensures
            parsed == DatePrecision::from_text(value@),
    {
        if text_equals(value, "day") {
            Some(DatePrecision::Day)
        } else if text_equals(value, "month") {
            Some(DatePrecision::Month)
        } else if text_equals(value, "year") {
            Some(DatePrecision::Year)
        } else if text_equals(value, "unknown") {
            Some(DatePrecision::Unknown)
        } else {
            None
        }
    }
}

/// The condition of an owned copy.
#[derive(Debug, Clone, Copy, PartialEq, Eq, Structural)]
pub enum BookCondition {
    New,
    LikeNew,
    Good,
    Fair,
    Poor,
    Unknown,
}

impl BookCondition {
    /// The text that stands for this value in the database and in messages.
    pub open spec fn text(self) -> Seq<char> {
        match self {
            BookCondition::New => "new"@,
            BookCondition::LikeNew => "like_new"@,
            BookCondition::Good => "good"@,
            BookCondition::Fair => "fair"@,
            BookCondition::Poor => "poor"@,
            BookCondition::Unknown => "unknown"@,
        }
    }

    /// The value that a text stands for, if any.
    pub open spec fn from_text(s: Seq<char>) -> Option<BookCondition> {
        if s == "new"@ {
            Some(BookCondition::New)
        } else if s == "like_new"@ {
            Some(BookCondition::LikeNew)
        } else if s == "good"@ {
            Some(BookCondition::Good)
        } else if s == "fair"@ {
            Some(BookCondition::Fair)
        } else if s == "poor"@ {
            Some(BookCondition::Poor)
        } else if s == "unknown"@ {
            Some(BookCondition::Unknown)
        } else {
            None
        }
    }

    /// The text that stands for this value.
    pub fn as_str(self) -> (text: &'static str)
        ensures
            text@ == self.text(),
    {
        match self {
            BookCondition::New => "new",
            BookCondition::LikeNew => "like_new",
            BookCondition::Good => "good",
            BookCondition::Fair => "fair",
            BookCondition::Poor => "poor",
            BookCondition::Unknown => "unknown",
        }
    }

    /// The value stored in the database as `value`; `None` for any other text.
    pub fn from_db(value: &str) -> (parsed: Option<BookCondition>)
        ensures
            parsed == BookCondition::from_text(value@),
    {
        if text_equals(value, "new") {
            Some(BookCondition::New)
        } else if text_equals(value, "like_new") {
            Some(BookCondition::LikeNew)
        } else if text_equals(value, "good") {
            Some(BookCondition::Good)
        } else if text_equals(value, "fair") {
            Some(BookCondition::Fair)
        } else if text_equals(value, "poor") {
            Some(BookCondition::Poor)
        } else if text_equals(value, "unknown") {
            Some(BookCondition::Unknown)
        } else {
            None
        }
    }
}

/// Where a piece of metadata came from.
#[derive(Debug, Clone, Copy, PartialEq, Eq, Structural)]
pub enum MetadataSource {
    Manual,
    GoogleBooks,
    OpenLibrary,
    NclImport,
}

impl MetadataSource {
    /// The text that stands for this value in the database and in messages.
    pub open spec fn text(self) -> Seq<char> {
        match self {
            MetadataSource::Manual => "manual"@,
            MetadataSource::GoogleBooks => "google_books"@,
            MetadataSource::OpenLibrary => "open_library"@,
            MetadataSource::NclImport => "ncl_import"@,
        }
    }

    /// The value that a text stands for, if any.
    pub open spec fn from_text(s: Seq<char>) -> Option<MetadataSource> {
        if s == "manual"@ {
            Some(MetadataSource::Manual)
        } else if s == "google_books"@ {
            Some(MetadataSource::GoogleBooks)
        } else if s == "open_library"@ {
            Some(MetadataSource::OpenLibrary)
        } else if s == "ncl_import"@ {
            Some(MetadataSource::NclImport)
        } else {
            None
        }
    }

    /// The text that stands for this value.
    pub fn as_str(self) -> (text: &'static str)
        ensures
            text@ == self.text(),
    {
        match self {
            MetadataSource::Manual => "manual",
            MetadataSource::GoogleBooks => "google_books",
            MetadataSource::OpenLibrary => "open_library",
            MetadataSource::NclImport => "ncl_import",
        }
    }
}

/// The image format of a cover file.
#[derive(Debug, Clone, Copy, PartialEq, Eq, Structural)]
pub enum CoverMimeType {
    Jpeg,
    Png,
    Webp,
}

impl CoverMimeType {
    /// The text that stands for this value in the database and in messages.
    pub open spec fn text(self) -> Seq<char> {
        match self {
            CoverMimeType::Jpeg => "image/jpeg"@,
            CoverMimeType::Png => "image/png"@,
            CoverMimeType::Webp => "image/webp"@,
        }
    }

    /// The value that a text stands for, if any.
    pub open spec fn from_text(s: Seq<char>) -> Option<CoverMimeType> {
        if s == "image/jpeg"@ {
            Some(CoverMimeType::Jpeg)
        } else if s == "image/png"@ {
            Some(CoverMimeType::Png)
        } else if s == "image/webp"@ {
            Some(CoverMimeType::Webp)
        } else {
            None
        }
    }

    /// The value stored in the database as `value`; `None` for any other text.
    pub fn from_db(value: &str) -> (parsed: Option<CoverMimeType>)
        ensures
            parsed == CoverMimeType::from_text(value@),
    {
        if text_equals(value, "image/jpeg") {
            Some(CoverMimeType::Jpeg)
        } else if text_equals(value, "image/png") {
            Some(CoverMimeType::Png)
        } else if text_equals(value, "image/webp") {
            Some(CoverMimeType::Webp)
        } else {
            None
        }
    }
}

} // verus!

verus! {

impl CoverMimeType {
    /// The MIME type of this image format.
    pub fn content_type(&self) -> (mime: &'static str)
        ensures
            mime@ == self.text(),
    {
        match self {
            CoverMimeType::Jpeg => "image/jpeg",
            CoverMimeType::Png => "image/png",
            CoverMimeType::Webp => "image/webp",
        }
    }
}

impl Default for BookCondition {
    /// A copy whose condition nobody recorded.
    fn default() -> (condition: BookCondition)
        ensures
            condition == BookCondition::Unknown,
    {
        BookCondition::Unknown
    }
}

/// The text of a `PublicationStatus` is read back as the same value, and it is the only
/// text that is: the two are inverse to each other.
pub proof fn publication_status_text_round_trip(value: PublicationStatus, s: Seq<char>)
    ensures
        PublicationStatus::from_text(value.text()) == Some(value),
        PublicationStatus::from_text(s) == Some(value) <==> s == value.text(),
{
    reveal_strlit("ongoing");
    assert("ongoing"@ =~= seq!['o', 'n', 'g', 'o', 'i', 'n', 'g']);
    reveal_strlit("completed");
    assert("completed"@ =~= seq!['c', 'o', 'm', 'p', 'l', 'e', 't', 'e', 'd']);
    reveal_strlit("hiatus");
    assert("hiatus"@ =~= seq!['h', 'i', 'a', 't', 'u', 's']);
    reveal_strlit("unknown");
    assert("unknown"@ =~= seq!['u', 'n', 'k', 'n', 'o', 'w', 'n']);
}

/// The text of a `PublicationStatusFilter` is read back as the same value, and it is the only
/// text that is: the two are inverse to each other.
pub proof fn publication_status_filter_text_round_trip(value: PublicationStatusFilter, s: Seq<char>)
    ensures
        PublicationStatusFilter::from_text(value.text()) == Some(value),
        PublicationStatusFilter::from_text(s) == Some(value) <==> s == value.text(),
{
    reveal_strlit("all");
    assert("all"@ =~= seq!['a', 'l', 'l']);
    reveal_strlit("ongoing");
    assert("ongoing"@ =~= seq!['o', 'n', 'g', 'o', 'i', 'n', 'g']);
    reveal_strlit("completed");
    assert("completed"@ =~= seq!['c', 'o', 'm', 'p', 'l', 'e', 't', 'e', 'd']);
    reveal_strlit("hiatus");
    assert("hiatus"@ =~= seq!['h', 'i', 'a', 't', 'u', 's']);
    reveal_strlit("unknown");
    assert("unknown"@ =~= seq!['u', 'n', 'k', 'n', 'o', 'w', 'n']);
}

/// The text of a `CompletionFilter` is read back as the same value, and it is the only
/// text that is: the two are inverse to each other.
pub proof fn completion_filter_text_round_trip(value: CompletionFilter, s: Seq<char>)
    ensures
        CompletionFilter::from_text(value.text()) == Some(value),
        CompletionFilter::from_text(s) == Some(value) <==> s == value.text(),
{
    reveal_strlit("all");
    assert("all"@ =~= seq!['a', 'l', 'l']);
    reveal_strlit("complete");
    assert("complete"@ =~= seq!['c', 'o', 'm', 'p', 'l', 'e', 't', 'e']);
    reveal_strlit("incomplete");
    assert("incomplete"@ =~= seq!['i', 'n', 'c', 'o', 'm', 'p', 'l', 'e', 't', 'e']);
}

/// The text of a `ContributorRole` is read back as the same value, and it is the only
/// text that is: the two are inverse to each other.
pub proof fn contributor_role_text_round_trip(value: ContributorRole, s: Seq<char>)
    ensures
        ContributorRole::from_text(value.text()) == Some(value),
        ContributorRole::from_text(s) == Some(value) <==> s == value.text(),
{
    reveal_strlit("author");
    assert("author"@ =~= seq!['a', 'u', 't', 'h', 'o', 'r']);
    reveal_strlit("story");
    assert("story"@ =~= seq!['s', 't', 'o', 'r', 'y']);
    reveal_strlit("art");
    assert("art"@ =~= seq!['a', 'r', 't']);
}

/// The text of a `EditionFormat` is read back as the same value, and it is the only
/// text that is: the two are inverse to each other.
pub proof fn edition_format_text_round_trip(value: EditionFormat, s: Seq<char>)
    ensures
        EditionFormat::from_text(value.text()) == Some(value),
        EditionFormat::from_text(s) == Some(value) <==> s == value.text(),
{
    reveal_strlit("tankobon");
    assert("tankobon"@ =~= seq!['t', 'a', 'n', 'k', 'o', 'b', 'o', 'n']);
    reveal_strlit("omnibus");
    assert("omnibus"@ =~= seq!['o', 'm', 'n', 'i', 'b', 'u', 's']);
    reveal_strlit("deluxe");
    assert("deluxe"@ =~= seq!['d', 'e', 'l', 'u', 'x', 'e']);
    reveal_strlit("box_set");
    assert("box_set"@ =~= seq!['b', 'o', 'x', '_', 's', 'e', 't']);
    reveal_strlit("other");
    assert("other"@ =~= seq!['o', 't', 'h', 'e', 'r']);
}

/// The text of a `AvailabilityStatus` is read back as the same value, and it is the only
/// text that is: the two are inverse to each other.
pub proof fn availability_status_text_round_trip(value: AvailabilityStatus, s: Seq<char>)
    ensures
        AvailabilityStatus::from_text(value.text()) == Some(value),
        AvailabilityStatus::from_text(s) == Some(value) <==> s == value.text(),
{
    reveal_strlit("released");
    assert("released"@ =~= seq!['r', 'e', 'l', 'e', 'a', 's', 'e', 'd']);
    reveal_strlit("upcoming");
    assert("upcoming"@ =~= seq!['u', 'p', 'c', 'o', 'm', 'i', 'n', 'g']);
    reveal_strlit("unknown");
    assert("unknown"@ =~= seq!['u', 'n', 'k', 'n', 'o', 'w', 'n']);
}

/// The text of a `DatePrecision` is read back as the same value, and it is the only
/// text that is: the two are inverse to each other.
pub proof fn date_precision_text_round_trip(value: DatePrecision, s: Seq<char>)
    ensures
        DatePrecision::from_text(value.text()) == Some(value),
        DatePrecision::from_text(s) == Some(value) <==> s == value.text(),
{
    reveal_strlit("day");
    assert("day"@ =~= seq!['d', 'a', 'y']);
    reveal_strlit("month");
    assert("month"@ =~= seq!['m', 'o', 'n', 't', 'h']);
    reveal_strlit("year");
    assert("year"@ =~= seq!['y', 'e', 'a', 'r']);
    reveal_strlit("unknown");
    assert("unknown"@ =~= seq!['u', 'n', 'k', 'n', 'o', 'w', 'n']);
}

/// The text of a `BookCondition` is read back as the same value, and it is the only
/// text that is: the two are inverse to each other.
pub proof fn book_condition_text_round_trip(value: BookCondition, s: Seq<char>)
    ensures
        BookCondition::from_text(value.text()) == Some(value),
        BookCondition::from_text(s) == Some(value) <==> s == value.text(),
{
    reveal_strlit("new");
    assert("new"@ =~= seq!['n', 'e', 'w']);
    reveal_strlit("like_new");
    assert("like_new"@ =~= seq!['l', 'i', 'k', 'e', '_', 'n', 'e', 'w']);
    reveal_strlit("good");
    assert("good"@ =~= seq!['g', 'o', 'o', 'd']);
    reveal_strlit("fair");
    assert("fair"@ =~= seq!['f', 'a', 'i', 'r']);
    reveal_strlit("poor");
    assert("poor"@ =~= seq!['p', 'o', 'o', 'r']);
    reveal_strlit("unknown");
    assert("unknown"@ =~= seq!['u', 'n', 'k', 'n', 'o', 'w', 'n']);
}

/// The text of a `MetadataSource` is read back as the same value, and it is the only
/// text that is: the two are inverse to each other.
pub proof fn metadata_source_text_round_trip(value: MetadataSource, s: Seq<char>)
    ensures
        MetadataSource::from_text(value.text()) == Some(value),
        MetadataSource::from_text(s) == Some(value) <==> s == value.text(),
{
    reveal_strlit("manual");
    assert("manual"@ =~= seq!['m', 'a', 'n', 'u', 'a', 'l']);
    reveal_strlit("google_books");
    assert("google_books"@ =~= seq!['g', 'o', 'o', 'g', 'l', 'e', '_', 'b', 'o', 'o', 'k', 's']);
    reveal_strlit("open_library");
    assert("open_library"@ =~= seq!['o', 'p', 'e', 'n', '_', 'l', 'i', 'b', 'r', 'a', 'r', 'y']);
    reveal_strlit("ncl_import");
    assert("ncl_import"@ =~= seq!['n', 'c', 'l', '_', 'i', 'm', 'p', 'o', 'r', 't']);
}

/// The text of a `CoverMimeType` is read back as the same value, and it is the only
/// text that is: the two are inverse to each other.
pub proof fn cover_mime_type_text_round_trip(value: CoverMimeType, s: Seq<char>)
    ensures
        CoverMimeType::from_text(value.text()) == Some(value),
        CoverMimeType::from_text(s) == Some(value) <==> s == value.text(),
{
    reveal_strlit("image/jpeg");
    assert("image/jpeg"@ =~= seq!['i', 'm', 'a', 'g', 'e', '/', 'j', 'p', 'e', 'g']);
    reveal_strlit("image/png");
    assert("image/png"@ =~= seq!['i', 'm', 'a', 'g', 'e', '/', 'p', 'n', 'g']);
    reveal_strlit("image/webp");
    assert("image/webp"@ =~= seq!['i', 'm', 'a', 'g', 'e', '/', 'w', 'e', 'b', 'p']);
}

} // verus!

verus! {

/// What a series list is filtered by: a search text and three status filters.
#[derive(Debug, Clone, PartialEq, Eq)]
pub struct SeriesFilter {
    pub query: String,
    pub publication_status: PublicationStatusFilter,
    pub collection: CompletionFilter,
    pub reading: CompletionFilter,
}

/// The figures and lists on the dashboard.
#[derive(Debug, Clone, PartialEq, Eq)]
pub struct DashboardSummary {
    pub series_count: i64,
    pub owned_volume_count: i64,
    pub read_volume_count: i64,
    pub missing_volume_count: i64,
    pub recent_volumes: Vec<VolumeWithCollection>,
    pub incomplete_series: Vec<SeriesSummary>,
}

/// One series in a list, with its volume counts.
#[derive(Debug, Clone, PartialEq, Eq)]
pub struct SeriesSummary {
    pub id: String,
    pub title: String,
    pub original_title: Option<String>,
    pub publication_status: PublicationStatus,
    pub contributors: Vec<ContributorView>,
    pub publishers: Vec<String>,
    pub representative_cover: Option<CoverAsset>,
    pub known_volume_count: i64,
    pub owned_volume_count: i64,
    pub read_volume_count: i64,
    pub missing_volume_count: i64,
}

/// A contributor of a series and the part they played.
#[derive(Debug, Clone, PartialEq, Eq)]
pub struct ContributorView {
    pub name: String,
    pub role: ContributorRole,
}

/// A stored cover image.
#[derive(Debug, Clone, PartialEq, Eq)]
pub struct CoverAsset {
    pub id: String,
    pub relative_path: String,
    pub mime_type: CoverMimeType,
    pub byte_size: i64,
    pub sha256: String,
}

/// What the collection records of one volume.
#[derive(Debug, Clone, PartialEq, Eq)]
pub struct CollectionItemView {
    pub is_owned: bool,
    pub is_read: bool,
    pub is_wishlisted: bool,
    pub purchase_price_amount: Option<i64>,
    pub purchase_price_currency: Option<String>,
    pub acquired_on: Option<String>,
    pub condition: BookCondition,
    pub storage_location: Option<String>,
    pub notes: Option<String>,
}

/// A volume together with its collection record.
#[derive(Debug, Clone, PartialEq, Eq)]
pub struct VolumeWithCollection {
    pub id: String,
    pub edition_id: String,
    pub display_label: String,
    pub sort_key: String,
    pub title_override: Option<String>,
    pub isbn_10: Option<String>,
    pub isbn_13: Option<String>,
    pub translator: Option<String>,
    pub availability_status: AvailabilityStatus,
    pub release_date: Option<String>,
    pub release_date_precision: DatePrecision,
    pub list_price_amount: Option<i64>,
    pub list_price_currency: Option<String>,
    pub cover: Option<CoverAsset>,
    pub collection: CollectionItemView,
}

/// An edition of a series and its volumes.
#[derive(Debug, Clone, PartialEq, Eq)]
pub struct EditionDetail {
    pub id: String,
    pub name: String,
    pub language_code: String,
    pub region_code: String,
    pub publisher: String,
    pub format: EditionFormat,
    pub release_status: PublicationStatus,
    pub known_volume_count: Option<i64>,
    pub volumes: Vec<VolumeWithCollection>,
}

/// A series with its editions, volumes and counts.
#[derive(Debug, Clone, PartialEq, Eq)]
pub struct SeriesDetail {
    pub id: String,
    pub title: String,
    pub original_title: Option<String>,
    pub publication_status: PublicationStatus,
    pub contributors: Vec<ContributorView>,
    pub publishers: Vec<String>,
    pub representative_cover: Option<CoverAsset>,
    pub known_volume_count: i64,
    pub owned_volume_count: i64,
    pub read_volume_count: i64,
    pub missing_volume_count: i64,
    pub description: Option<String>,
    pub editions: Vec<EditionDetail>,
}

/// A new series with one edition and its volumes, created together.
#[derive(Debug, Clone, PartialEq, Eq)]
pub struct CreateSeriesBatchInput {
    pub series: CreateSeriesInput,
    pub edition: CreateEditionInput,
    pub volumes: Vec<CreateVolumeInput>,
}

/// The series part of a new series.
#[derive(Debug, Clone, PartialEq, Eq)]
pub struct CreateSeriesInput {
    pub title: String,
    pub original_title: Option<String>,
    pub description: Option<String>,
    pub publication_status: PublicationStatus,
    pub contributors: Vec<ContributorInput>,
}

/// A contributor of a new series.
#[derive(Debug, Clone, PartialEq, Eq)]
pub struct ContributorInput {
    pub name: String,
    pub role: ContributorRole,
    pub sort_order: i64,
}

/// The edition part of a new series.
#[derive(Debug, Clone, PartialEq, Eq)]
pub struct CreateEditionInput {
    pub name: String,
    pub language_code: String,
    pub region_code: String,
    pub publisher: String,
    pub format: EditionFormat,
    pub release_status: PublicationStatus,
    pub known_volume_count: Option<i64>,
}

/// One volume of a new series, with its collection record and the source of each field.
#[derive(Debug, Clone, PartialEq, Eq)]
pub struct CreateVolumeInput {
    pub display_label: String,
    pub sort_key: String,
    pub title_override: Option<String>,
    pub isbn_10: Option<String>,
    pub isbn_13: Option<String>,
    pub translator: Option<String>,
    pub availability_status: AvailabilityStatus,
    pub release_date: Option<String>,
    pub release_date_precision: DatePrecision,
    pub list_price_amount: Option<i64>,
    pub list_price_currency: Option<String>,
    pub collection: CollectionItemView,
    pub provenance: BTreeMap<String, MetadataSource>,
}

/// New metadata for a series, its main author and one of its editions.
#[derive(Debug, Clone, PartialEq, Eq)]
pub struct UpdateSeriesMetadataInput {
    pub title: String,
    pub original_title: Option<String>,
    pub description: Option<String>,
    pub publication_status: PublicationStatus,
    pub author: String,
    pub edition_id: String,
    pub edition_name: String,
    pub publisher: String,
}

/// A volume added to an existing edition.
#[derive(Debug, Clone, PartialEq, Eq)]
pub struct AddVolumeInput {
    pub display_label: String,
    pub isbn: Option<String>,
    pub availability_status: AvailabilityStatus,
    pub collection: CollectionItemView,
}

/// The edited details of an existing volume: its label, ISBN, availability and its
/// whole collection record.
#[derive(Debug, Clone, PartialEq, Eq)]
pub struct UpdateVolumeDetailsInput {
    pub display_label: String,
    pub isbn: Option<String>,
    pub availability_status: AvailabilityStatus,
    pub collection: CollectionItemView,
}

/// A change to a collection record: `None` keeps a field, `Some(v)` sets it to `v`
/// (for the optional fields, `Some(None)` clears it).
#[derive(Debug, Clone, PartialEq, Eq)]
pub struct CollectionItemPatch {
    pub is_owned: Option<bool>,
    pub is_read: Option<bool>,
    pub is_wishlisted: Option<bool>,
    pub purchase_price_amount: Option<Option<i64>>,
    pub purchase_price_currency: Option<Option<String>>,
    pub acquired_on: Option<Option<String>>,
    pub condition: Option<BookCondition>,
    pub storage_location: Option<Option<String>>,
    pub notes: Option<Option<String>>,
}

impl Default for CollectionItemView {
    /// A volume that is not owned, read or wished for, with nothing else recorded.
    fn default() -> (view: CollectionItemView)
        ensures
            !view.is_owned,
            !view.is_read,
            !view.is_wishlisted,
            view.purchase_price_amount is None,
            view.purchase_price_currency is None,
            view.acquired_on is None,
            view.condition == BookCondition::Unknown,
            view.storage_location is None,
            view.notes is None,
    {
        CollectionItemView {
            is_owned: false,
            is_read: false,
            is_wishlisted: false,
            purchase_price_amount: None,
            purchase_price_currency: None,
            acquired_on: None,
            condition: BookCondition::default(),
            storage_location: None,
            notes: None,
        }
    }
}

impl Default for CollectionItemPatch {
    /// A patch that changes nothing.
    fn default() -> (patch: CollectionItemPatch)
        ensures
            patch.is_owned is None,
            patch.is_read is None,
            patch.is_wishlisted is None,
            patch.purchase_price_amount is None,
            patch.purchase_price_currency is None,
            patch.acquired_on is None,
            patch.condition is None,
            patch.storage_location is None,
            patch.notes is None,
    {
        CollectionItemPatch {
            is_owned: None,
            is_read: None,
            is_wishlisted: None,
            purchase_price_amount: None,
            purchase_price_currency: None,
            acquired_on: None,
            condition: None,
            storage_location: None,
            notes: None,
        }
    }
}

} // verus!
