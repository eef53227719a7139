//! The conditions under which an image is refused.

use vstd::prelude::*;

verus! {

/// What went wrong on the medium that holds an image.
#[derive(Clone, Copy, Debug, PartialEq, Eq, Structural)]
pub enum IoFailure {
    /// Fewer bytes were there than a read asked for.
    UnexpectedEof,
    /// A write reached past the end of what the sink can hold.
    WriteZero,
    /// The medium itself reported a failure; the operating system's code for
    /// it is carried along, zero where there is none.
    Medium { code: i32 },
}

/// Why an image was refused, or could not be patched.
#[derive(Clone, Copy, Debug, PartialEq, Eq)]
#[non_exhaustive]
pub enum Error {
    /// The image does not start with the boot header's magic number.
    MagicNumber { wrong_magic: u32 },
    /// The image is too short to hold a boot header.
    HeadLength { wrong_length: u64 },
    /// The flash configuration does not start with its magic number.
    FlashConfigMagic { wrong_magic: u32 },
    /// The clock configuration does not start with its magic number.
    ClockConfigMagic { wrong_magic: u32 },
    /// The payload that the header declares does not lie within the file.
    ImageOffsetOverflow { file_length: u64, wrong_image_offset: u32, wrong_image_length: u32 },
    /// The payload does not hash to the digest stored in the header; the
    /// digest that it does hash to is carried along.
    Sha256Checksum { wrong_checksum: [u8; 32] },
    /// Reading or writing failed.
    Io(IoFailure),
}

/// An `Error` as contracts speak of it: the digest as a sequence of bytes.
pub enum ErrorView {
    MagicNumber { wrong_magic: u32 },
    HeadLength { wrong_length: u64 },
    FlashConfigMagic { wrong_magic: u32 },
    ClockConfigMagic { wrong_magic: u32 },
    ImageOffsetOverflow { file_length: u64, wrong_image_offset: u32, wrong_image_length: u32 },
    Sha256Checksum { wrong_checksum: Seq<u8> },
    Io(IoFailure),
}

impl View for Error {
    type V = ErrorView;

    open spec fn view(&self) -> ErrorView {
        match *self {
            Error::MagicNumber { wrong_magic } => ErrorView::MagicNumber { wrong_magic },
            Error::HeadLength { wrong_length } => ErrorView::HeadLength { wrong_length },
            Error::FlashConfigMagic { wrong_magic } => ErrorView::FlashConfigMagic { wrong_magic },
            Error::ClockConfigMagic { wrong_magic } => ErrorView::ClockConfigMagic { wrong_magic },
            Error::ImageOffsetOverflow { file_length, wrong_image_offset, wrong_image_length } =>
                ErrorView::ImageOffsetOverflow {
                    file_length,
                    wrong_image_offset,
                    wrong_image_length,
                },
            Error::Sha256Checksum { wrong_checksum } => ErrorView::Sha256Checksum {
                wrong_checksum: wrong_checksum@,
            },
            Error::Io(failure) => ErrorView::Io(failure),
        }
    }
}

} // verus!
