//! Typed errors of the mosh engine.
//!
//! The engine itself only ever constructs [`MoshError::UnsupportedColorType`]
//! and [`MoshError::InvalidParameters`]; the remaining variants exist so that
//! callers driving decoding, encoding and file handling can funnel collaborator
//! failures through one type.

use vstd::prelude::*;

verus! {

/// Failure cases of image processing.
#[derive(Clone, Copy, Debug, PartialEq, Eq, Structural)]
pub enum MoshError {
    /// Input data could not be decoded by a collaborator.
    DecodingError,
    /// Output data could not be encoded by a collaborator.
    EncodingError,
    /// A collaborator hit an I/O failure.
    IoError,
    /// An allocation failed during resampling.
    OutOfMemory,
    /// The color layout cannot be processed.
    UnsupportedColorType,
    /// Degenerate geometry: zero-sized axis, a pixelation factor larger than
    /// an axis, or a buffer whose length does not match its description.
    InvalidParameters,
}

impl MoshError {
    /// A short human-readable description of the error.
    pub fn message(&self) -> (r: &'static str)
        ensures
            self is OutOfMemory ==> r@ == "Out of memory"@,
            self is UnsupportedColorType ==> r@ == "Unsupported color type"@,
            self is InvalidParameters ==> r@ == "Invalid parameters"@,
            self is DecodingError ==> r@ == "Decoding error"@,
            self is EncodingError ==> r@ == "Encoding error"@,
            self is IoError ==> r@ == "I/O error"@,
    {
        match self {
            MoshError::DecodingError => "Decoding error",
            MoshError::EncodingError => "Encoding error",
            MoshError::IoError => "I/O error",
            MoshError::OutOfMemory => "Out of memory",
            MoshError::UnsupportedColorType => "Unsupported color type",
            MoshError::InvalidParameters => "Invalid parameters",
        }
    }
}

} // verus!
