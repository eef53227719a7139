//! The boot header: where its fields lie, and how they are read.
//!
//! Decoding interprets no value: whether a magic number is the right one, or a
//! payload range lies within the file, is for the validator to say.

use vstd::prelude::*;
use crate::image::codec::{be_u32, le_u32, read_be_u32, read_le_u32};
use crate::image::digest::DIGEST_SIZE;
use crate::image::error::Error;

verus! {

/// Number of bytes that the header takes at the start of an image.
pub const HEADER_SIZE: usize = 256;

/// Where the header's magic number lies.
pub const MAGIC_OFFSET: usize = 0x00;

/// Where the flash configuration starts, with its magic number.
pub const FLASH_MAGIC_OFFSET: usize = 0x08;

/// Where the flash configuration's fields start.
pub const FLASH_FIELDS_OFFSET: usize = 0x0c;

/// Number of bytes that the flash configuration's fields take.
pub const FLASH_FIELDS_SIZE: usize = 84;

/// Where the checksum over the flash configuration's fields lies.
pub const FLASH_CHECKSUM_OFFSET: usize = 0x60;

/// Where the clock configuration starts, with its magic number.
pub const CLOCK_MAGIC_OFFSET: usize = 0x64;

/// Where the clock configuration's fields start.
pub const CLOCK_FIELDS_OFFSET: usize = 0x68;

/// Number of bytes that the clock configuration's fields take.
pub const CLOCK_FIELDS_SIZE: usize = 20;

/// Where the checksum over the clock configuration's fields lies.
pub const CLOCK_CHECKSUM_OFFSET: usize = 0x7c;

/// Where the payload's offset within the file lies.
pub const IMAGE_OFFSET_OFFSET: usize = 0x84;

/// Where the payload's length lies.
pub const IMAGE_LENGTH_OFFSET: usize = 0x8c;

/// Where the payload's SHA-256 digest lies.
pub const DIGEST_OFFSET: usize = 0x90;

/// The flash configuration as stored in the header.
#[derive(Clone, Copy, Debug, PartialEq, Eq)]
pub struct FlashConfig {
    /// The magic number that the record starts with.
    pub magic: u32,
    /// The flash timing fields, which this library does not interpret.
    pub fields: [u8; 84],
    /// The stored CRC-32 of `fields`.
    pub checksum: u32,
}

/// The clock configuration as stored in the header.
#[derive(Clone, Copy, Debug, PartialEq, Eq)]
pub struct ClockConfig {
    /// The magic number that the record starts with.
    pub magic: u32,
    /// The clock tree fields, which this library does not interpret.
    pub fields: [u8; 20],
    /// The stored CRC-32 of `fields`.
    pub checksum: u32,
}

/// A decoded boot header.
#[derive(Clone, Copy, Debug, PartialEq, Eq)]
pub struct Header {
    /// The magic number that the image starts with.
    pub magic: u32,
    /// The flash configuration.
    pub flash_config: FlashConfig,
    /// The clock configuration.
    pub clock_config: ClockConfig,
    /// Offset of the payload from the start of the file, in bytes.
    pub image_offset: u32,
    /// Length of the payload in bytes.
    pub image_length: u32,
    /// The stored SHA-256 digest of the payload.
    pub digest: [u8; 32],
}

/// A configuration record as contracts speak of it.
pub struct ConfigView {
    pub magic: u32,
    pub fields: Seq<u8>,
    pub checksum: u32,
}

/// A header as contracts speak of it.
pub struct HeaderView {
    pub magic: u32,
    pub flash_config: ConfigView,
    pub clock_config: ConfigView,
    pub image_offset: u32,
    pub image_length: u32,
    pub digest: Seq<u8>,
}

impl View for FlashConfig {
    type V = ConfigView;

    open spec fn view(&self) -> ConfigView {
        ConfigView { magic: self.magic, fields: self.fields@, checksum: self.checksum }
    }
}

impl View for ClockConfig {
    type V = ConfigView;

    open spec fn view(&self) -> ConfigView {
        ConfigView { magic: self.magic, fields: self.fields@, checksum: self.checksum }
    }
}

impl View for Header {
    type V = HeaderView;

    open spec fn view(&self) -> HeaderView {
        HeaderView {
            magic: self.magic,
            flash_config: self.flash_config@,
            clock_config: self.clock_config@,
            image_offset: self.image_offset,
            image_length: self.image_length,
            digest: self.digest@,
        }
    }
}

/// The four bytes at `at`.
pub open spec fn word_at(bytes: Seq<u8>, at: int) -> Seq<u8> {
    bytes.subrange(at, at + 4)
}

/// The header that the first `HEADER_SIZE` bytes of an image spell.
#[verifier::opaque]
pub open spec fn decode(bytes: Seq<u8>) -> HeaderView
    recommends
        bytes.len() >= HEADER_SIZE,
{
    HeaderView {
        magic: be_u32(word_at(bytes, MAGIC_OFFSET as int)),
        flash_config: ConfigView {
            magic: be_u32(word_at(bytes, FLASH_MAGIC_OFFSET as int)),
            fields: bytes.subrange(
                FLASH_FIELDS_OFFSET as int,
                FLASH_FIELDS_OFFSET + FLASH_FIELDS_SIZE,
            ),
            checksum: le_u32(word_at(bytes, FLASH_CHECKSUM_OFFSET as int)),
        },
        clock_config: ConfigView {
            magic: be_u32(word_at(bytes, CLOCK_MAGIC_OFFSET as int)),
            fields: bytes.subrange(
                CLOCK_FIELDS_OFFSET as int,
                CLOCK_FIELDS_OFFSET + CLOCK_FIELDS_SIZE,
            ),
            checksum: le_u32(word_at(bytes, CLOCK_CHECKSUM_OFFSET as int)),
        },
        image_offset: le_u32(word_at(bytes, IMAGE_OFFSET_OFFSET as int)),
        image_length: le_u32(word_at(bytes, IMAGE_LENGTH_OFFSET as int)),
        digest: bytes.subrange(DIGEST_OFFSET as int, DIGEST_OFFSET + DIGEST_SIZE),
    }
}

/// Only the first `HEADER_SIZE` bytes bear on what is decoded.
pub proof fn lemma_decode_prefix(a: Seq<u8>, b: Seq<u8>)
    requires
        a.len() >= HEADER_SIZE,
        b.len() >= HEADER_SIZE,
        a.take(HEADER_SIZE as int) == b.take(HEADER_SIZE as int),
    ensures
        decode(a) == decode(b),
{
    reveal(decode);
    let pa = a.take(HEADER_SIZE as int);
    let pb = b.take(HEADER_SIZE as int);
    assert forall|from: int, to: int| 0 <= from <= to <= HEADER_SIZE implies a.subrange(from, to)
        == b.subrange(from, to) by {
        assert(a.subrange(from, to) =~= pa.subrange(from, to));
        assert(b.subrange(from, to) =~= pb.subrange(from, to));
    }
}

/// Copies the `N` bytes at `at` out of `bytes`.
fn copy_out<const N: usize>(bytes: &[u8], at: usize) -> (out: [u8; N])
    requires
        at + N <= bytes@.len(),
    ensures
        out@ == bytes@.subrange(at as int, at + N),
{
    let mut out: [u8; N] = [0u8; N];
    let mut i: usize = 0;
    while i < N
        invariant
            i <= N,
            at + N <= bytes.len(),
            out@.len() == N,
            forall|k: int| 0 <= k < i ==> out@[k] == bytes@[at + k],
        decreases N - i,
    {
        out[i] = bytes[at + i];
        i += 1;
    }
    assert(out@ =~= bytes@.subrange(at as int, at + N));
    out
}

/// Decodes the header at the start of `bytes`.
///
/// Fails only when there are fewer than `HEADER_SIZE` bytes, and then reports
/// how many there were; no field is looked at before that is known.
pub fn parse(bytes: &[u8]) -> (parsed: Result<Header, Error>)
    ensures
        bytes@.len() < HEADER_SIZE ==> parsed == Err::<Header, Error>(
            Error::HeadLength { wrong_length: bytes@.len() as u64 },
        ),
        bytes@.len() >= HEADER_SIZE ==> parsed is Ok && parsed->Ok_0@ == decode(bytes@),
{
    if bytes.len() < HEADER_SIZE {
        return Err(Error::HeadLength { wrong_length: bytes.len() as u64 });
    }
    proof {
        reveal(decode);
    }
    let flash_config = FlashConfig {
        magic: read_be_u32(bytes, FLASH_MAGIC_OFFSET),
        fields: copy_out::<84>(bytes, FLASH_FIELDS_OFFSET),
        checksum: read_le_u32(bytes, FLASH_CHECKSUM_OFFSET),
    };
    let clock_config = ClockConfig {
        magic: read_be_u32(bytes, CLOCK_MAGIC_OFFSET),
        fields: copy_out::<20>(bytes, CLOCK_FIELDS_OFFSET),
        checksum: read_le_u32(bytes, CLOCK_CHECKSUM_OFFSET),
    };
    Ok(
        Header {
            magic: read_be_u32(bytes, MAGIC_OFFSET),
            flash_config,
            clock_config,
            image_offset: read_le_u32(bytes, IMAGE_OFFSET_OFFSET),
            image_length: read_le_u32(bytes, IMAGE_LENGTH_OFFSET),
            digest: copy_out::<32>(bytes, DIGEST_OFFSET),
        },
    )
}

} // verus!
