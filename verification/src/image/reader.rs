//! Reading ranges of an image that lies in memory.

use vstd::prelude::*;
use vstd::slice::slice_subrange;
use crate::image::error::IoFailure;

verus! {

/// The number of bytes that an image holds.
pub fn total_length(image: &[u8]) -> (length: u64)
    ensures
        length == image@.len(),
{
    image.len() as u64
}

/// Reads the `length` bytes of `image` that start at `offset`.
///
/// Fails with an unexpected end of file where the image does not hold all of
/// them.
pub fn read_exact(image: &[u8], offset: u64, length: usize) -> (piece: Result<&[u8], IoFailure>)
    ensures
        offset + length <= image@.len() ==> piece is Ok && piece->Ok_0@ == image@.subrange(
            offset as int,
            offset + length,
        ),
        offset + length > image@.len() ==> piece == Err::<&[u8], IoFailure>(
            IoFailure::UnexpectedEof,
        ),
{
    let total: u64 = image.len() as u64;
    if offset > total || length as u64 > total - offset {
        return Err(IoFailure::UnexpectedEof);
    }
    let from: usize = offset as usize;
    Ok(slice_subrange(image, from, from + length))
}

} // verus!
