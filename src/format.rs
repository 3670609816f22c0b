use vstd::prelude::*;

use crate::error::Error;
use crate::text::same_text;

verus! {

/// The closed set of image formats the proxy knows.
#[derive(Debug, Clone, Copy, PartialEq, Eq, Structural)]
pub enum Format {
    Jpeg,
    Png,
    Webp,
    Avif,
}

/// The file extension of each format, dot included.
pub open spec fn extension_of(f: Format) -> Seq<char> {
    match f {
        Format::Jpeg => ".jpg"@,
        Format::Png => ".png"@,
        Format::Webp => ".webp"@,
        Format::Avif => ".avif"@,
    }
}

/// The MIME content type of each format.
pub open spec fn mime_of(f: Format) -> Seq<char> {
    match f {
        Format::Jpeg => "image/jpeg"@,
        Format::Png => "image/png"@,
        Format::Webp => "image/webp"@,
        Format::Avif => "image/avif"@,
    }
}

/// The formats accepted from an inbound content type, if any.
pub open spec fn parse_mime(s: Seq<char>) -> Option<Format> {
    if s == "image/jpeg"@ {
        Some(Format::Jpeg)
    } else if s == "image/png"@ {
        Some(Format::Png)
    } else {
        None
    }
}

/// A format viewed through its file extension.
pub struct FileExtension(pub Format);

impl FileExtension {
    pub fn from(value: Format) -> (r: FileExtension)
        ensures
            r.0 == value,
    {
        FileExtension(value)
    }

    pub fn format(self) -> (r: Format)
        ensures
            r == self.0,
    {
        self.0
    }

    /// The extension text, for example `.png`.
    pub fn to_string(&self) -> (r: &'static str)
        ensures
            r@ == extension_of(self.0),
    {
        match self.0 {
            Format::Avif => ".avif",
            Format::Png => ".png",
            Format::Jpeg => ".jpg",
            Format::Webp => ".webp",
        }
    }
}

/// A format viewed through its MIME content type.
pub struct Mime(pub Format);

impl Mime {
    pub fn from(value: Format) -> (r: Mime)
        ensures
            r.0 == value,
    {
        Mime(value)
    }

    pub fn format(self) -> (r: Format)
        ensures
            r == self.0,
    {
        self.0
    }

    /// The content type text, for example `image/png`.
    pub fn to_string(&self) -> (r: &'static str)
        ensures
            r@ == mime_of(self.0),
    {
        match self.0 {
            Format::Jpeg => "image/jpeg",
            Format::Png => "image/png",
            Format::Webp => "image/webp",
            Format::Avif => "image/avif",
        }
    }

    /// Reads a content type; only JPEG and PNG are recognised.
    pub fn from_str(s: &str) -> (r: Result<Mime, Error>)
        ensures
            match parse_mime(s@) {
                Some(f) => r == Ok::<Mime, Error>(Mime(f)),
                None => r == Err::<Mime, Error>(Error::ParseError),
            },
    {
        if same_text(s, "image/jpeg") {
            Ok(Mime(Format::Jpeg))
        } else if same_text(s, "image/png") {
            Ok(Mime(Format::Png))
        } else {
            Err(Error::ParseError)
        }
    }
}

} // verus!
