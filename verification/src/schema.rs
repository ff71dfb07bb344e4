//! The data that the server sends and receives, as plain values.
//!
//! Points in time are whole milliseconds since the Unix epoch.

use chrono::{DateTime, Utc};
use vstd::prelude::*;

verus! {

/// Whether `chrono` can represent the point in time that lies `millis`
/// milliseconds after the Unix epoch.
pub uninterp spec fn representable_millis(millis: i64) -> bool;

/// Calls `chrono::DateTime::from_timestamp_millis` and says whether it
/// returned a date. The function returns `None` exactly for a number of
/// milliseconds that is out of its range, and what it returns depends on
/// the number alone.
#[verifier::external_body]
fn datetime_exists(millis: i64) -> (exists: bool)
    ensures
        exists == representable_millis(millis),
{
    DateTime::<Utc>::from_timestamp_millis(millis).is_some()
}

/// A point in time that a date can be made of.
#[derive(Debug, Clone, Copy, PartialEq, Eq)]
pub struct Timestamp {
    millis: i64,
}

/// Why a value of the server could not be taken over.
#[derive(Debug, Clone, Copy, PartialEq, Eq)]
pub enum SchemaError {
    /// A point in time lies outside the range of dates.
    DateTimeOutOfRange,
}

impl SchemaError {
    /// The error in words.
    pub fn to_string(&self) -> (text: String)
        ensures
            text@ == "DateTime out of range"@,
    {
        "DateTime out of range".to_owned()
    }
}

impl Timestamp {
    #[verifier::type_invariant]
    spec fn representable(self) -> bool {
        representable_millis(self.millis)
    }

    /// The milliseconds since the Unix epoch, in contracts.
    pub closed spec fn spec_millis(self) -> i64 {
        self.millis
    }

    /// The milliseconds since the Unix epoch.
    pub fn millis(&self) -> (millis: i64)
        ensures
            millis == self.spec_millis(),
            representable_millis(millis),
    {
        proof {
            use_type_invariant(self);
        }
        self.millis
    }
}

/// Takes over a point in time that the server gave in milliseconds. Fails
/// exactly when no date can be made of it.
pub fn deserialize_timestamp(timestamp: i64) -> (result: Result<Timestamp, SchemaError>)
    ensures
        match result {
            Ok(time) => representable_millis(timestamp) && time.spec_millis() == timestamp,
            Err(error) => !representable_millis(timestamp) && error
                == SchemaError::DateTimeOutOfRange,
        },
{
    accept_timestamp(timestamp, datetime_exists(timestamp))
}

/// Takes over a point in time of which it is known whether a date can be
/// made of it: the point in time if one can, an error if none can.
pub fn accept_timestamp(timestamp: i64, exists: bool) -> (result: Result<Timestamp, SchemaError>)
    requires
        exists == representable_millis(timestamp),
    ensures
        match result {
            Ok(time) => exists && time.spec_millis() == timestamp,
            Err(error) => !exists && error == SchemaError::DateTimeOutOfRange,
        },
{
    if exists {
        Ok(Timestamp { millis: timestamp })
    } else {
        Err(SchemaError::DateTimeOutOfRange)
    }
}

/// Takes over a point in time that the server may have left out. A missing
/// value stays missing; a value that is there must make a date.
pub fn deserialize_timestamp_option(timestamp: Option<i64>) -> (result: Result<
    Option<Timestamp>,
    SchemaError,
>)
    ensures
        match timestamp {
            Some(millis) => match result {
                Ok(time) => {
                    &&& representable_millis(millis)
                    &&& time matches Some(t)
                    &&& t.spec_millis() == millis
                },
                Err(error) => !representable_millis(millis) && error
                    == SchemaError::DateTimeOutOfRange,
            },
            None => result == Ok::<Option<Timestamp>, SchemaError>(None),
        },
{
    match timestamp {
        Some(millis) => match deserialize_timestamp(millis) {
            Ok(time) => Ok(Some(time)),
            Err(error) => Err(error),
        },
        None => Ok(None),
    }
}

/// The body of a login request.
#[derive(Debug, Clone, PartialEq)]
pub struct AuthRequest {
    pub username: String,
    pub password: String,
}

/// What a user is allowed to do.
#[derive(Debug, Clone, PartialEq)]
pub struct UserPermissions {
    pub download: bool,
    pub update: bool,
    pub delete: bool,
    pub upload: bool,
    pub access_all_libraries: bool,
    pub access_all_tags: bool,
    pub access_explicit_content: bool,
}

/// The identifier of an item of kind `T`. The marker keeps identifiers of
/// different kinds apart.
#[derive(Debug, PartialEq)]
pub struct Id<T> {
    pub id: String,
    pub marker: std::marker::PhantomData<T>,
}

/// The list of libraries that the server holds.
#[derive(Debug, Clone, PartialEq)]
pub struct Libraries {
    pub libraries: Vec<Library>,
}

/// One library of the server.
#[derive(Debug, Clone, PartialEq)]
pub struct Library {
    /// The text of the identifier; [`Library::id`] gives it its kind.
    pub id: String,
    pub name: String,
    pub folders: Vec<Folder>,
    pub display_order: u64,
    pub icon: String,
    pub media_type: MediaType,
    pub provider: String,
    pub created_at: Timestamp,
    pub last_update: Timestamp,
}

/// A library together with the values that its items can be filtered by.
#[derive(Debug, Clone, PartialEq)]
pub struct LibraryWithFilters {
    pub library: Library,
    pub filterdata: LibraryFilterData,
}

/// The values that the items of a library can be filtered by.
#[derive(Debug, Clone, PartialEq)]
pub struct LibraryFilterData {
    pub authors: Vec<Author>,
    pub genres: Vec<String>,
    pub series: Vec<Series>,
}

/// A series of books.
#[derive(Debug, Clone, PartialEq)]
pub struct Series {
    /// The text of the identifier; [`Series::id`] gives it its kind.
    pub id: String,
    pub name: String,
}

/// An author.
#[derive(Debug, Clone, PartialEq)]
pub struct Author {
    /// The text of the identifier; [`Author::id`] gives it its kind.
    pub id: String,
    pub name: String,
}

/// What kind of media a library holds.
#[derive(Debug, Clone, PartialEq)]
pub enum MediaType {
    Book,
    Podcast,
}

/// A folder of a library.
#[derive(Debug, Clone, PartialEq)]
pub struct Folder {
    /// The text of the identifier; [`Folder::id`] gives it its kind.
    pub id: String,
    pub full_path: String,
    pub library_id: String,
    pub added_at: Timestamp,
}

/// One page of a longer list.
#[derive(Debug, Clone, PartialEq)]
pub struct PaginatedResponse<T> {
    pub results: Vec<T>,
    pub total: usize,
    pub limit: usize,
    pub page: usize,
}

/// The media of a library item in its short form.
#[derive(Debug, Clone, PartialEq)]
#[allow(inconsistent_fields)]
pub enum LibraryMediaMinified {
    Book {
        metadata: BookMetadataMinified,
        cover_path: Option<String>,
        tags: Vec<String>,
    },
    Podcast {
        metadata: PodcastMetadataMinified,
        cover_path: Option<String>,
        tags: Vec<String>,
        auto_download_episodes: bool,
        auto_download_schedule: String,
        last_episode_check: bool,
        max_episodes_to_keep: usize,
        max_new_episodes_to_download: usize,
    },
}

/// What is known about a podcast.
#[derive(Debug, Clone, PartialEq)]
pub struct PodcastMetadata {
    pub title: Option<String>,
    pub author: Option<String>,
    pub description: Option<String>,
    pub release_date: Option<String>,
    pub genres: Vec<String>,
    pub feed_url: Option<String>,
    pub image_url: Option<String>,
    pub itunes_page_url: Option<String>,
    pub itunes_id: Option<i64>,
    pub itunes_artist_id: Option<i64>,
    pub explicit: bool,
    pub language: Option<String>,
    pub type_: Option<String>,
}

/// What is known about a podcast, in its short form.
#[derive(Debug, Clone, PartialEq)]
pub struct PodcastMetadataMinified {
    pub title_ignore_prefix: String,
    pub title: Option<String>,
    pub author: Option<String>,
    pub description: Option<String>,
    pub release_date: Option<String>,
    pub genres: Vec<String>,
    pub feed_url: Option<String>,
    pub image_url: Option<String>,
    pub itunes_page_url: Option<String>,
    pub itunes_id: Option<i64>,
    pub itunes_artist_id: Option<i64>,
    pub explicit: bool,
    pub language: Option<String>,
    pub type_: Option<String>,
}

/// What is known about a book.
#[derive(Debug, Clone, PartialEq)]
pub struct BookMetadata {
    pub title: Option<String>,
    pub subtitle: Option<String>,
    pub authors: Vec<Author>,
    pub narrators: Vec<String>,
    pub series: Vec<Series>,
    pub genres: Vec<String>,
    pub published_year: Option<String>,
    pub published_data: Option<String>,
    pub publisher: Option<String>,
    pub description: Option<String>,
    pub isbn: Option<String>,
    pub asin: Option<String>,
    pub language: Option<String>,
    pub explicit: bool,
}

/// What is known about a book, in its short form.
#[derive(Debug, Clone, PartialEq)]
pub struct BookMetadataMinified {
    pub title: Option<String>,
    pub subtitle: Option<String>,
    pub genres: Vec<String>,
    pub title_ignore_prefix: String,
    pub author_name: String,
    pub author_name_lf: String,
    pub narrator_name: String,
    pub series_name: String,
    pub published_year: Option<String>,
    pub published_data: Option<String>,
    pub publisher: Option<String>,
    pub description: Option<String>,
    pub isbn: Option<String>,
    pub asin: Option<String>,
    pub language: Option<String>,
    pub explicit: bool,
}

/// A file that belongs to a library item.
#[derive(Debug, Clone, PartialEq)]
pub struct LibraryFile {
    pub ino: String,
    pub metadata: FileMetadata,
    pub added_at: Timestamp,
    pub updated_at: Timestamp,
    pub file_type: String,
}

/// What the file system says about a file.
#[derive(Debug, Clone, PartialEq)]
pub struct FileMetadata {
    pub filename: String,
    pub ext: String,
    pub path: String,
    pub rel_path: String,
    pub size: usize,
    pub mtime_ms: Timestamp,
    pub ctime_ms: Timestamp,
    pub birthtime_ms: Timestamp,
}

/// An episode of a podcast, as a kind of identifier.
#[derive(Debug, Clone, PartialEq)]
pub struct Episode {}

/// How far a user has got with an item.
#[derive(Debug, Clone, PartialEq)]
pub enum Progress {
    Finished,
    NotStarted,
    NotFinished,
    InProgress,
}

impl Library {
    /// The identifier of this value.
    pub fn id(&self) -> (id: Id<Library>)
        ensures
            id.id@ == self.id@,
    {
        Id::new(self.id.clone())
    }
}

impl Series {
    /// The identifier of this value.
    pub fn id(&self) -> (id: Id<Series>)
        ensures
            id.id@ == self.id@,
    {
        Id::new(self.id.clone())
    }
}

impl Author {
    /// The identifier of this value.
    pub fn id(&self) -> (id: Id<Author>)
        ensures
            id.id@ == self.id@,
    {
        Id::new(self.id.clone())
    }
}

impl Folder {
    /// The identifier of this value.
    pub fn id(&self) -> (id: Id<Folder>)
        ensures
            id.id@ == self.id@,
    {
        Id::new(self.id.clone())
    }
}

impl<T> Clone for Id<T> {
    fn clone(&self) -> (copy: Self)
        ensures
            copy.id@ == self.id@,
    {
        Id { id: self.id.clone(), marker: std::marker::PhantomData }
    }
}

impl<T> Id<T> {
    /// An identifier made of its text.
    pub fn new(id: String) -> (made: Self)
        ensures
            made.id@ == id@,
    {
        Id { id, marker: std::marker::PhantomData }
    }

    /// The identifier as text.
    pub fn as_str(&self) -> (text: &str)
        ensures
            text@ == self.id@,
    {
        self.id.as_str()
    }
}

impl Progress {
    /// The name of the progress as the server spells it.
    pub open spec fn name(self) -> Seq<char> {
        match self {
            Progress::Finished => "finished"@,
            Progress::NotStarted => "not-started"@,
            Progress::NotFinished => "not-finished"@,
            Progress::InProgress => "in-progress"@,
        }
    }

    /// The name of the progress as the server spells it.
    pub fn as_str(&self) -> (text: &'static str)
        ensures
            text@ == self.name(),
    {
        match self {
            Self::Finished => "finished",
            Self::NotStarted => "not-started",
            Self::NotFinished => "not-finished",
            Self::InProgress => "in-progress",
        }
    }
}

} // verus!
