//! The errors that the adapter reports.

use font_kit::error::FontLoadingError;
use vstd::prelude::*;

verus! {

/// Why `font-kit` could not load a font. Declared with its variants, so that
/// the mapping onto [`Error`] is verified.
#[verifier::external_type_specification]
pub struct ExFontLoadingError(FontLoadingError);

/// The I/O error of std that a loading failure may carry. It is carried
/// along without a look inside.
#[verifier::external_type_specification]
#[verifier::external_body]
pub struct ExIoError(std::io::Error);

/// An error of the adapter.
#[derive(Debug)]
pub enum Error {
    /// The pixel format is not the supported one, or a dimension is too large
    /// for the backend.
    UnsupportedFormat,
    /// An argument does not fit the others, such as a pixel buffer of the
    /// wrong length.
    InvalidInput,
    /// The font data holds no font at the place asked for.
    MissingFont,
    /// The font data is of no known format, or is malformed.
    FontLoadingFailed,
    /// The font loader failed for another reason, which is carried along.
    BackendError(FontLoadingError),
    /// The operation is outside what this adapter does.
    NotSupported,
}

/// The error that a failure of the font loader is reported as.
pub open spec fn loading_error(failure: FontLoadingError) -> Error {
    match failure {
        FontLoadingError::NoSuchFontInCollection => Error::MissingFont,
        FontLoadingError::UnknownFormat => Error::FontLoadingFailed,
        FontLoadingError::Parse => Error::FontLoadingFailed,
        other => Error::BackendError(other),
    }
}

impl Error {
    /// Maps a failure of the font loader onto an error of the adapter: a
    /// font missing from a collection is a missing font, an unknown or
    /// malformed format is a failure to load, and anything else is carried
    /// along as a backend error.
    pub fn from_loading(failure: FontLoadingError) -> (e: Error)
        ensures
            e == loading_error(failure),
    {
        match failure {
            FontLoadingError::NoSuchFontInCollection => Error::MissingFont,
            FontLoadingError::UnknownFormat => Error::FontLoadingFailed,
            FontLoadingError::Parse => Error::FontLoadingFailed,
            other => Error::BackendError(other),
        }
    }
}

} // verus!
