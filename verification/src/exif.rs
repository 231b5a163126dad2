//! An interface for file kinds whose metadata can be stripped by path.

use vstd::prelude::*;

verus! {

/// A file kind that can strip the metadata of a file, giving the path of the
/// stripped file.
pub trait StripMetadata {
    fn remove_metadata(file: &str) -> Option<String>;
}

/// A video file.
pub struct VideoFile<'a> {
    path: &'a str,
}

/// An image file.
pub struct Image<'a> {
    path: &'a str,
}

} // verus!
