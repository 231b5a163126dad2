//! The kinds of uploads and how the metadata of each is removed.

use vstd::prelude::*;

verus! {

/// How the metadata of a file is removed.
pub enum Stripping {
    /// The file is used as it is: the path to publish.
    Keep(String),
    /// The EXIF data of the file at this path is cleared in place.
    StripExif(String),
}

/// `Stripping` over character sequences.
pub enum StrippingView {
    Keep(Seq<char>),
    StripExif(Seq<char>),
}

impl View for Stripping {
    type V = StrippingView;

    open spec fn view(&self) -> StrippingView {
        match self {
            Stripping::Keep(p) => StrippingView::Keep(p@),
            Stripping::StripExif(p) => StrippingView::StripExif(p@),
        }
    }
}

/// A kind of upload that knows how its metadata is removed.
pub trait MetaData {
    fn remove_metadata(&self) -> Stripping;
}

/// An uploaded video.
pub struct VideoFile<'a> {
    pub path: &'a str,
}

/// Videos go through the EXIF stripping of images.
impl MetaData for VideoFile<'_> {
    fn remove_metadata(&self) -> (r: Stripping)
        ensures
            r@ == StrippingView::StripExif(self.path@),
    {
        Stripping::StripExif(String::from_str(self.path))
    }
}

/// An uploaded image.
pub struct Image<'a> {
    pub path: &'a str,
}

/// Images have their EXIF data cleared.
impl MetaData for Image<'_> {
    fn remove_metadata(&self) -> (r: Stripping)
        ensures
            r@ == StrippingView::StripExif(self.path@),
    {
        Stripping::StripExif(String::from_str(self.path))
    }
}

/// An upload of any other type, published as it is.
pub struct Noop<'a> {
    pub path: &'a str,
}

/// Other files are kept unchanged.
impl MetaData for Noop<'_> {
    fn remove_metadata(&self) -> (r: Stripping)
        ensures
            r@ == StrippingView::Keep(self.path@),
    {
        Stripping::Keep(String::from_str(self.path))
    }
}

} // verus!
