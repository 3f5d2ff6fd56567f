//! The errors that end a paste.

use vstd::prelude::*;

verus! {

/// Why a paste stopped.
#[derive(Clone, Copy, Debug, PartialEq, Eq, Structural)]
pub enum PasteError {
    /// The clipboard could not be opened.
    ClipboardUnavailable,
    /// A listed path has no file name.
    MissingFilename,
    /// A listed file has no extension.
    MissingExtension,
    /// Copying a listed file failed.
    CopyFailed,
    /// The image buffer does not hold four bytes for every pixel.
    InvalidImageBuffer,
    /// The image dimensions cannot make a pixel grid.
    ImageDecodeFailed,
    /// The PNG encoder refused the image.
    EncodeFailed,
    /// The clock reading could not be rendered as a timestamp.
    TimestampFailed,
}

/// The description of each error.
pub open spec fn message_of(e: PasteError) -> Seq<char> {
    match e {
        PasteError::ClipboardUnavailable => "could not open the clipboard"@,
        PasteError::MissingFilename => "could not determine filename"@,
        PasteError::MissingExtension => "could not determine extension"@,
        PasteError::CopyFailed => "can't copy file"@,
        PasteError::InvalidImageBuffer => "invalid image data length"@,
        PasteError::ImageDecodeFailed => "could not create image from raw data"@,
        PasteError::EncodeFailed => "could not encode image as PNG"@,
        PasteError::TimestampFailed => "could not render the current time"@,
    }
}

impl PasteError {
    /// A short human-readable description.
    pub fn message(&self) -> (r: &'static str)
        ensures
            r@ == message_of(*self),
    {
        match self {
            PasteError::ClipboardUnavailable => "could not open the clipboard",
            PasteError::MissingFilename => "could not determine filename",
            PasteError::MissingExtension => "could not determine extension",
            PasteError::CopyFailed => "can't copy file",
            PasteError::InvalidImageBuffer => "invalid image data length",
            PasteError::ImageDecodeFailed => "could not create image from raw data",
            PasteError::EncodeFailed => "could not encode image as PNG",
            PasteError::TimestampFailed => "could not render the current time",
        }
    }
}

} // verus!
