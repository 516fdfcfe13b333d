//! Uploading finished plays to Hanami Web.
use vstd::prelude::*;

use crate::activity::model::RecentPlay;
use crate::auth::client::text;

verus! {

/// What Hanami did with an uploaded play.
#[derive(Clone, Copy, Debug, PartialEq, Eq, Structural)]
pub enum UploadResult {
    Unsupported,
}

/// Why a play could not be uploaded.
#[derive(Clone, Copy, Debug, PartialEq, Eq, Structural)]
pub enum UploadError {
    Unsupported,
}

impl UploadError {
    /// The sentence describing this error.
    pub fn message(&self) -> (r: String)
        ensures
            r@ == "Hanami Web does not expose a play-ingestion endpoint yet"@,
    {
        text("Hanami Web does not expose a play-ingestion endpoint yet")
    }
}

/// Something that can upload a finished play to Hanami.
pub trait PlayUploader {
    fn upload(&self, play: &RecentPlay) -> Result<UploadResult, UploadError>;
}

/// The uploader used while Hanami Web has no play-ingestion endpoint: it
/// never claims success.
#[derive(Clone, Copy, Debug, Default)]
pub struct UnsupportedPlayUploader;

impl PlayUploader for UnsupportedPlayUploader {
    fn upload(&self, play: &RecentPlay) -> (r: Result<UploadResult, UploadError>)
        ensures
            r == Err::<UploadResult, UploadError>(UploadError::Unsupported),
    {
        Err(UploadError::Unsupported)
    }
}

} // verus!
