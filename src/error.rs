//! What can go wrong while converting one file.
use vstd::prelude::*;

verus! {

/// The failure of one conversion job, with a human-readable detail.
#[derive(Debug)]
pub enum ConvertError {
    /// A file could not be opened, read, created or written.
    Io(String),
    /// The source content is malformed or of an unknown kind.
    Decode(String),
    /// An icon container without any entry.
    EmptyContainer,
    /// Resizing, compressing or writing a container failed.
    Encode(String),
    /// Tracing pixels into a vector document failed.
    Tracing(String),
    /// An image with no pixels cannot be traced.
    EmptyImage,
    /// The pixels, at four bytes each, do not fit in memory.
    Allocation,
    /// No codec path leads from the source format to the target format.
    Unsupported,
}

impl ConvertError {
    /// The kind of failure, as a prefix of its description.
    pub open spec fn kind_text(&self) -> Seq<char> {
        match self {
            ConvertError::Io(_) => "I/O error: "@,
            ConvertError::Decode(_) => "decode error: "@,
            ConvertError::EmptyContainer => "decode error: "@,
            ConvertError::Encode(_) => "encode error: "@,
            ConvertError::Tracing(_) => "tracing error: "@,
            ConvertError::EmptyImage => "tracing error: "@,
            ConvertError::Allocation => "allocation error: "@,
            ConvertError::Unsupported => "unsupported conversion"@,
        }
    }

    /// The detail that follows the kind.
    pub open spec fn detail_text(&self) -> Seq<char> {
        match self {
            ConvertError::Io(d) => d@,
            ConvertError::Decode(d) => d@,
            ConvertError::EmptyContainer => "the icon container has no entries"@,
            ConvertError::Encode(d) => d@,
            ConvertError::Tracing(d) => d@,
            ConvertError::EmptyImage => "the image has no pixels"@,
            ConvertError::Allocation => "the image is too large"@,
            ConvertError::Unsupported => ""@,
        }
    }

    /// A one-line description: the kind, then the detail.
    pub fn describe(&self) -> (r: String)
        ensures
            r@ == self.kind_text() + self.detail_text(),
    {
        let (kind, detail): (&str, &str) = match self {
            ConvertError::Io(d) => ("I/O error: ", d.as_str()),
            ConvertError::Decode(d) => ("decode error: ", d.as_str()),
            ConvertError::EmptyContainer => ("decode error: ", "the icon container has no entries"),
            ConvertError::Encode(d) => ("encode error: ", d.as_str()),
            ConvertError::Tracing(d) => ("tracing error: ", d.as_str()),
            ConvertError::EmptyImage => ("tracing error: ", "the image has no pixels"),
            ConvertError::Allocation => ("allocation error: ", "the image is too large"),
            ConvertError::Unsupported => ("unsupported conversion", ""),
        };
        String::from_str(kind).concat(detail)
    }
}

} // verus!
