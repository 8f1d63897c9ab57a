use vstd::prelude::*;
use vstd::string::{to_string_from_display_ensures, StringExecFns};

verus! {

/// A stored short URL: its code, the URL it stands for, and how often it was followed.
#[derive(Debug)]
pub struct ShortUrlRecord {
    pub code: String,
    pub long_url: String,
    pub access_count: i64,
}

/// The view of a `ShortUrlRecord`.
pub struct RecordView {
    pub code: Seq<char>,
    pub long_url: Seq<char>,
    pub access_count: int,
}

impl View for ShortUrlRecord {
    type V = RecordView;

    open spec fn view(&self) -> RecordView {
        RecordView { code: self.code@, long_url: self.long_url@, access_count: self.access_count as int }
    }
}

impl Clone for ShortUrlRecord {
    fn clone(&self) -> (r: Self)
        ensures
            r == *self,
    {
        ShortUrlRecord { code: self.code.clone(), long_url: self.long_url.clone(), access_count: self.access_count }
    }
}

/// What is asked of the repository when a short URL is created.
#[derive(Debug)]
pub struct CreateShortUrlRecord {
    pub code: String,
    pub long_url: String,
}

impl Clone for CreateShortUrlRecord {
    fn clone(&self) -> (r: Self)
        ensures
            r == *self,
    {
        CreateShortUrlRecord { code: self.code.clone(), long_url: self.long_url.clone() }
    }
}

/// A failed repository call: the code was taken, or another failure.
#[derive(Debug)]
pub enum RepositoryError {
    DuplicateCode,
    Other(anyhow::Error),
}

impl RepositoryError {
    /// The human-readable message of this error; another failure shows its own message.
    pub fn message(&self) -> (m: String)
        ensures
            match self {
                RepositoryError::DuplicateCode => m@ == "short code already exists"@,
                RepositoryError::Other(e) => to_string_from_display_ensures::<anyhow::Error>(e, m),
            },
    {
        match self {
            RepositoryError::DuplicateCode => String::from_str("short code already exists"),
            RepositoryError::Other(e) => e.to_string(),
        }
    }
}

/// The view of a `RepositoryError`, which does not look into the other failure.
pub enum RepositoryErrorView {
    DuplicateCode,
    Other,
}

impl View for RepositoryError {
    type V = RepositoryErrorView;

    open spec fn view(&self) -> RepositoryErrorView {
        match self {
            RepositoryError::DuplicateCode => RepositoryErrorView::DuplicateCode,
            RepositoryError::Other(_) => RepositoryErrorView::Other,
        }
    }
}

} // verus!
