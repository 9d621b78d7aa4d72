use vstd::prelude::*;

verus! {

/// Everything that can go wrong while answering an icon request, from path
/// parsing through rendering and caching.
#[derive(Debug, PartialEq, Eq)]
pub enum IconError {
    /// The request path does not match the icon filename grammar, or a size
    /// written in it does not fit a `u32`; carries the offending path.
    PathMismatch { path: String },
    /// The parsed width lies outside `[1, 500]`.
    InvalidWidth,
    /// The parsed height lies outside `[1, 500]`.
    InvalidHeight,
    /// Width and height differ; only square icons are served.
    InvalidSize,
    /// The source response carried no content-type header (`None`) or one that
    /// names no supported image format (`Some` of that value).
    UnknownSourceFormat { content_type: Option<String> },
    /// The source bytes could not be decoded as the declared format; carries
    /// the codec's diagnostic.
    DecodeError { message: String },
    /// PNG encoding of the freshly rendered icon failed; carries the codec's
    /// diagnostic.
    EncodeError { message: String },
}

impl IconError {
    /// The HTTP status class the edge answers with: bad request for a path
    /// that does not match the grammar, forbidden for an out-of-range or
    /// non-square size, and a generic server error for pipeline failures.
    pub open spec fn spec_status(self) -> u16 {
        match self {
            IconError::PathMismatch { .. } => 400,
            IconError::InvalidWidth => 403,
            IconError::InvalidHeight => 403,
            IconError::InvalidSize => 403,
            IconError::UnknownSourceFormat { .. } => 500,
            IconError::DecodeError { .. } => 500,
            IconError::EncodeError { .. } => 500,
        }
    }

    /// The status code of the response this error turns into.
    pub fn status(&self) -> (code: u16)
        ensures
            code == self.spec_status(),
    {
        match self {
            IconError::PathMismatch { .. } => 400,
            IconError::InvalidWidth | IconError::InvalidHeight | IconError::InvalidSize => 403,
            _ => 500,
        }
    }
}

} // verus!
