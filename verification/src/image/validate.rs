//! What a decoded header must satisfy before anything is computed from it:
//! the three magic numbers, a payload range that lies within the file, and a
//! payload that hashes to the stored digest.

use vstd::prelude::*;
use crate::image::digest::{digest, sha256};
use crate::image::error::{Error, ErrorView};
use crate::image::header::{Header, HeaderView};

verus! {

/// The magic number of a boot header: the letters `BFNP`.
pub const HEAD_MAGIC: u32 = 0x4246_4e50;

/// The magic number of a flash configuration: the letters `FCFG`.
pub const FLASH_MAGIC: u32 = 0x4643_4647;

/// The magic number of a clock configuration: the letters `PCFG`.
pub const CLOCK_MAGIC: u32 = 0x5043_4647;

/// The first structural fault of a header that lies in a file of
/// `total_length` bytes, if it has one. The header's magic number is looked at
/// first, then the flash configuration's, then the clock configuration's, and
/// last the end of the payload, which may not lie behind the end of the file.
pub open spec fn structural_fault(header: HeaderView, total_length: u64) -> Option<ErrorView> {
    if header.magic != HEAD_MAGIC {
        Some(ErrorView::MagicNumber { wrong_magic: header.magic })
    } else if header.flash_config.magic != FLASH_MAGIC {
        Some(ErrorView::FlashConfigMagic { wrong_magic: header.flash_config.magic })
    } else if header.clock_config.magic != CLOCK_MAGIC {
        Some(ErrorView::ClockConfigMagic { wrong_magic: header.clock_config.magic })
    } else if header.image_offset + header.image_length > total_length {
        Some(
            ErrorView::ImageOffsetOverflow {
                file_length: total_length,
                wrong_image_offset: header.image_offset,
                wrong_image_length: header.image_length,
            },
        )
    } else {
        None
    }
}

/// The fault of a payload whose digest was computed as `computed`, if the
/// header stores another one.
pub open spec fn digest_fault(header: HeaderView, computed: Seq<u8>) -> Option<ErrorView> {
    if computed == header.digest {
        None
    } else {
        Some(ErrorView::Sha256Checksum { wrong_checksum: computed })
    }
}

/// What a function reports, as contracts speak of it: nothing where it
/// succeeded, else the error.
pub open spec fn reported<T>(outcome: Result<T, Error>) -> Option<ErrorView> {
    match outcome {
        Ok(_) => None,
        Err(e) => Some(e@),
    }
}

/// Checks the structure of `header`, which lies in a file of `total_length`
/// bytes, and reports its first fault.
pub fn validate(header: &Header, total_length: u64) -> (outcome: Result<(), Error>)
    ensures
        reported(outcome) == structural_fault(header@, total_length),
{
    if header.magic != HEAD_MAGIC {
        return Err(Error::MagicNumber { wrong_magic: header.magic });
    }
    if header.flash_config.magic != FLASH_MAGIC {
        return Err(Error::FlashConfigMagic { wrong_magic: header.flash_config.magic });
    }
    if header.clock_config.magic != CLOCK_MAGIC {
        return Err(Error::ClockConfigMagic { wrong_magic: header.clock_config.magic });
    }
    let end: u64 = header.image_offset as u64 + header.image_length as u64;
    if end > total_length {
        return Err(
            Error::ImageOffsetOverflow {
                file_length: total_length,
                wrong_image_offset: header.image_offset,
                wrong_image_length: header.image_length,
            },
        );
    }
    Ok(())
}

/// Whether two digests hold the same bytes.
fn same_digest(a: &[u8; 32], b: &[u8; 32]) -> (same: bool)
    ensures
        same == (a@ == b@),
{
    let mut i: usize = 0;
    while i < 32
        invariant
            i <= 32,
            forall|k: int| 0 <= k < i ==> a@[k] == b@[k],
        decreases 32 - i,
    {
        if a[i] != b[i] {
            return false;
        }
        i += 1;
    }
    assert(a@ =~= b@);
    true
}

/// Holds the digest that was computed over the payload against the one that
/// `header` stores. Where they differ, the computed one is reported.
pub fn compare_digest(header: &Header, computed: &[u8; 32]) -> (outcome: Result<(), Error>)
    ensures
        reported(outcome) == digest_fault(header@, computed@),
{
    if same_digest(&header.digest, computed) {
        Ok(())
    } else {
        Err(Error::Sha256Checksum { wrong_checksum: *computed })
    }
}

/// Hashes `payload` and holds its digest against the one that `header`
/// stores. Where they differ, the digest of `payload` is reported.
pub fn verify_payload(header: &Header, payload: &[u8]) -> (outcome: Result<(), Error>)
    ensures
        reported(outcome) == digest_fault(header@, sha256(payload@)),
{
    let computed = digest(payload);
    compare_digest(header, &computed)
}

} // verus!
