//! What is shown with an image: the day it was taken and its caption.

use crate::caption::{caption_of, derive_caption, root_text};
use crate::capture::{day_of, extract_date, taken_on};
use crate::error::SlideshowError;
use crate::path::{text_view, ImagePath, PathView};
use vstd::prelude::*;

verus! {

/// The mathematical value of an [`ImageMetadata`].
pub struct MetadataView {
    /// The day on which the image was taken.
    pub date: Option<Seq<char>>,
    /// The caption of the image.
    pub description: Option<Seq<char>>,
}

/// What is shown with an image. Either part may be missing: a file need not
/// say when it was taken, and a path need not give a caption.
#[derive(Debug)]
pub struct ImageMetadata {
    pub date: Option<String>,
    pub description: Option<String>,
}

impl View for ImageMetadata {
    type V = MetadataView;

    open spec fn view(&self) -> MetadataView {
        MetadataView { date: text_view(self.date), description: text_view(self.description) }
    }
}

impl Clone for ImageMetadata {
    fn clone(&self) -> (copy: ImageMetadata)
        ensures
            copy@ == self@,
    {
        let date = match &self.date {
            Some(day) => Some(day.clone()),
            None => None,
        };
        let description = match &self.description {
            Some(caption) => Some(caption.clone()),
            None => None,
        };
        ImageMetadata { date, description }
    }
}

/// What is shown with the image at `path` below `root`, whose file holds
/// `contents`.
pub open spec fn metadata_of(path: PathView, root: Option<Seq<char>>, contents: Seq<u8>)
    -> MetadataView {
    MetadataView { date: taken_on(contents), description: caption_of(path, root) }
}

/// What is shown with the image at `path` once its file was read: `read`
/// holds the contents, or nothing where the file could not be read.
pub open spec fn metadata_after_read(
    path: PathView,
    root: Option<Seq<char>>,
    read: Option<Seq<u8>>,
) -> Result<MetadataView, SlideshowError> {
    match read {
        Some(contents) => Ok(metadata_of(path, root, contents)),
        None => Err(SlideshowError::Unreadable),
    }
}

/// The contents of a file, if it was read, as a mathematical value.
pub open spec fn read_view(read: Option<&[u8]>) -> Option<Seq<u8>> {
    match read {
        Some(contents) => Some(contents@),
        None => None,
    }
}

/// What was made of an image, as a mathematical value.
pub open spec fn made_view(made: Result<ImageMetadata, SlideshowError>) -> Result<
    MetadataView,
    SlideshowError,
> {
    match made {
        Ok(metadata) => Ok(metadata@),
        Err(error) => Err(error),
    }
}

impl ImageMetadata {
    /// What is shown with the image at `path` below `root`, whose file
    /// holds `contents`. That the file says nothing of when it was taken,
    /// or that the path gives no caption, leaves that part empty and is no
    /// error.
    pub fn describe(path: &ImagePath, root: Option<&str>, contents: &[u8]) -> (made: ImageMetadata)
        ensures
            made@ == metadata_of(path@, root_text(root), contents@),
    {
        let description = derive_caption(path, root);
        let date = day_of(extract_date(contents));
        ImageMetadata { date, description }
    }

    /// What is shown with the image at `path` once its file was read. A
    /// file that could not be read is the one error.
    pub fn after_read(path: &ImagePath, root: Option<&str>, read: Option<&[u8]>) -> (made: Result<
        ImageMetadata,
        SlideshowError,
    >)
        ensures
            made_view(made) == metadata_after_read(path@, root_text(root), read_view(read)),
    {
        match read {
            Some(contents) => Ok(ImageMetadata::describe(path, root, contents)),
            None => Err(SlideshowError::Unreadable),
        }
    }
}

} // verus!
