//! The image kinds that may be uploaded.

use vstd::prelude::*;
use crate::text::str_eq;

verus! {

/// An image kind the board accepts; each stands for one MIME type.
#[derive(Debug, Clone, Copy, PartialEq, Eq, Structural)]
pub enum ImageExt {
    /// `image/jpeg`
    Jpg,
    /// `image/gif`
    Gif,
    /// `image/png`
    Png,
}

impl ImageExt {
    /// The file extension of the kind, a fixed string.
    pub open spec fn spec_extension(self) -> Seq<char> {
        match self {
            ImageExt::Jpg => "jpg"@,
            ImageExt::Gif => "gif"@,
            ImageExt::Png => "png"@,
        }
    }

    /// The MIME type that the kind stands for.
    pub open spec fn spec_mime(self) -> Seq<char> {
        match self {
            ImageExt::Jpg => "image/jpeg"@,
            ImageExt::Gif => "image/gif"@,
            ImageExt::Png => "image/png"@,
        }
    }

    /// The kind that a MIME type stands for, if it is one of the three.
    pub open spec fn spec_from_mime(mime: Seq<char>) -> Option<ImageExt> {
        if mime == "image/jpeg"@ {
            Some(ImageExt::Jpg)
        } else if mime == "image/gif"@ {
            Some(ImageExt::Gif)
        } else if mime == "image/png"@ {
            Some(ImageExt::Png)
        } else {
            None
        }
    }

    /// Returns the file extension, used to build stored file names.
    pub fn as_str(self) -> (s: &'static str)
        ensures
            s@ == self.spec_extension(),
            self == ImageExt::Jpg ==> s@ == "jpg"@,
            self == ImageExt::Gif ==> s@ == "gif"@,
            self == ImageExt::Png ==> s@ == "png"@,
    {
        match self {
            ImageExt::Jpg => "jpg",
            ImageExt::Gif => "gif",
            ImageExt::Png => "png",
        }
    }

    /// Maps a MIME type, as the magic-number sniffing reports it, to an image kind.
    pub fn from_mime(mime: &str) -> (r: Option<Self>)
        ensures
            r == Self::spec_from_mime(mime@),
            mime@ == "image/jpeg"@ ==> r == Some(ImageExt::Jpg),
            mime@ == "image/gif"@ ==> r == Some(ImageExt::Gif),
            mime@ == "image/png"@ ==> r == Some(ImageExt::Png),
            r is None <==> (mime@ != "image/jpeg"@ && mime@ != "image/gif"@ && mime@
                != "image/png"@),
    {
        proof {
            crate::laws::law_mime_kind_one_to_one(mime@, ImageExt::Gif);
            crate::laws::law_mime_kind_one_to_one(mime@, ImageExt::Png);
        }
        if str_eq(mime, "image/jpeg") {
            Some(ImageExt::Jpg)
        } else if str_eq(mime, "image/gif") {
            Some(ImageExt::Gif)
        } else if str_eq(mime, "image/png") {
            Some(ImageExt::Png)
        } else {
            None
        }
    }
}

} // verus!
