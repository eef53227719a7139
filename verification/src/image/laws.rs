//! What holds of checking and patching, whatever the image.

use vstd::prelude::*;
use crate::image::checker::CheckerView;
use crate::image::codec::{be_u32, le_bytes, lemma_le_round_trip};
use crate::image::crc::crc32;
use crate::image::digest::{sha256, DIGEST_SIZE};
use crate::image::error::ErrorView;
use crate::image::header::{
    decode, word_at, CLOCK_CHECKSUM_OFFSET, CLOCK_FIELDS_OFFSET, CLOCK_FIELDS_SIZE,
    CLOCK_MAGIC_OFFSET, DIGEST_OFFSET, FLASH_CHECKSUM_OFFSET, FLASH_FIELDS_OFFSET,
    FLASH_FIELDS_SIZE, FLASH_MAGIC_OFFSET, HEADER_SIZE, IMAGE_LENGTH_OFFSET, IMAGE_OFFSET_OFFSET,
    MAGIC_OFFSET,
};
use crate::image::patch::{all_fit, apply, checksum_patches, covers, fits, overwrite, PatchOpView};
use crate::image::validate::{structural_fault, CLOCK_MAGIC, FLASH_MAGIC, HEAD_MAGIC};
use crate::image::{payload, verdict};

verus! {

/// An image too short to hold a header is refused for its length, which is
/// reported as it is.
pub proof fn lemma_short_image_refused(image: Seq<u8>)
    requires
        image.len() < HEADER_SIZE,
    ensures
        verdict(image) == Err::<Seq<PatchOpView>, ErrorView>(
            ErrorView::HeadLength { wrong_length: image.len() as u64 },
        ),
{
}

/// A checker never asks for bytes that lie behind the end of the file.
pub proof fn lemma_request_within_file(state: CheckerView)
    requires
        state.wf(),
    ensures
        state.request().offset + state.request().length <= state.total_length,
{
}

/// An image whose first magic number is not the expected one is refused for
/// that, with the number found.
pub proof fn lemma_wrong_head_magic(image: Seq<u8>)
    requires
        HEADER_SIZE <= image.len(),
        decode(image).magic != HEAD_MAGIC,
    ensures
        verdict(image) == Err::<Seq<PatchOpView>, ErrorView>(
            ErrorView::MagicNumber { wrong_magic: decode(image).magic },
        ),
{
}

/// An image whose flash configuration does not start with the expected magic
/// number, while the header's own is right, is refused for that, with the
/// number found.
pub proof fn lemma_wrong_flash_magic(image: Seq<u8>)
    requires
        HEADER_SIZE <= image.len(),
        decode(image).magic == HEAD_MAGIC,
        decode(image).flash_config.magic != FLASH_MAGIC,
    ensures
        verdict(image) == Err::<Seq<PatchOpView>, ErrorView>(
            ErrorView::FlashConfigMagic { wrong_magic: decode(image).flash_config.magic },
        ),
{
}

/// An image whose clock configuration does not start with the expected magic
/// number, while the two before it are right, is refused for that, with the
/// number found.
pub proof fn lemma_wrong_clock_magic(image: Seq<u8>)
    requires
        HEADER_SIZE <= image.len(),
        decode(image).magic == HEAD_MAGIC,
        decode(image).flash_config.magic == FLASH_MAGIC,
        decode(image).clock_config.magic != CLOCK_MAGIC,
    ensures
        verdict(image) == Err::<Seq<PatchOpView>, ErrorView>(
            ErrorView::ClockConfigMagic { wrong_magic: decode(image).clock_config.magic },
        ),
{
}

/// The image with one bit of the byte at `at` flipped.
pub open spec fn flip(image: Seq<u8>, at: int, bit: u8) -> Seq<u8>
    recommends
        0 <= at < image.len(),
        bit < 8,
{
    image.update(at, image[at] ^ (1u8 << bit))
}

/// Flipping one bit of a byte gives another byte.
proof fn lemma_flipped_byte_differs(byte: u8, bit: u8)
    by (bit_vector)
    requires
        bit < 8,
    ensures
        byte ^ (1u8 << bit) != byte,
{
}

/// Flipping a bit within a big-endian word changes the number that the word
/// spells, and leaves every range of bytes that does not hold the flipped
/// byte as it was.
proof fn lemma_flip_changes_word(image: Seq<u8>, word: int, at: int, bit: u8)
    requires
        0 <= word <= at < word + 4 <= image.len(),
        bit < 8,
    ensures
        be_u32(word_at(flip(image, at, bit), word)) != be_u32(word_at(image, word)),
        forall|from: int, to: int|
            0 <= from <= to <= image.len() && (to <= at || at < from) ==> #[trigger] flip(
                image,
                at,
                bit,
            ).subrange(from, to) == image.subrange(from, to),
{
    lemma_flipped_byte_differs(image[at], bit);
    let flipped = flip(image, at, bit);
    let before = word_at(image, word);
    let after = word_at(flipped, word);
    assert(after[at - word] != before[at - word]);
    assert forall|k: int| 0 <= k < 4 && k != at - word implies after[k] == before[k] by {}
    assert forall|from: int, to: int|
        0 <= from <= to <= image.len() && (to <= at || at < from) implies #[trigger] flip(
            image,
            at,
            bit,
        ).subrange(from, to) == image.subrange(from, to) by {
        assert(flipped.subrange(from, to) =~= image.subrange(from, to));
    }
}

/// One flipped bit in the header's magic number has a sound image refused for
/// that magic number and for nothing else.
pub proof fn lemma_flipped_head_magic(image: Seq<u8>, at: int, bit: u8)
    requires
        HEADER_SIZE <= image.len(),
        decode(image).magic == HEAD_MAGIC,
        MAGIC_OFFSET <= at < MAGIC_OFFSET + 4,
        bit < 8,
    ensures
        decode(flip(image, at, bit)).magic != HEAD_MAGIC,
        verdict(flip(image, at, bit)) == Err::<Seq<PatchOpView>, ErrorView>(
            ErrorView::MagicNumber { wrong_magic: decode(flip(image, at, bit)).magic },
        ),
{
    reveal(decode);
    lemma_flip_changes_word(image, MAGIC_OFFSET as int, at, bit);
}

/// One flipped bit in the flash configuration's magic number has a sound
/// image refused for that magic number and for nothing else.
pub proof fn lemma_flipped_flash_magic(image: Seq<u8>, at: int, bit: u8)
    requires
        HEADER_SIZE <= image.len(),
        decode(image).magic == HEAD_MAGIC,
        decode(image).flash_config.magic == FLASH_MAGIC,
        FLASH_MAGIC_OFFSET <= at < FLASH_MAGIC_OFFSET + 4,
        bit < 8,
    ensures
        decode(flip(image, at, bit)).flash_config.magic != FLASH_MAGIC,
        verdict(flip(image, at, bit)) == Err::<Seq<PatchOpView>, ErrorView>(
            ErrorView::FlashConfigMagic {
                wrong_magic: decode(flip(image, at, bit)).flash_config.magic,
            },
        ),
{
    reveal(decode);
    lemma_flip_changes_word(image, FLASH_MAGIC_OFFSET as int, at, bit);
    assert(word_at(flip(image, at, bit), MAGIC_OFFSET as int) == word_at(
        image,
        MAGIC_OFFSET as int,
    ));
}

/// One flipped bit in the clock configuration's magic number has a sound
/// image refused for that magic number and for nothing else.
pub proof fn lemma_flipped_clock_magic(image: Seq<u8>, at: int, bit: u8)
    requires
        HEADER_SIZE <= image.len(),
        decode(image).magic == HEAD_MAGIC,
        decode(image).flash_config.magic == FLASH_MAGIC,
        decode(image).clock_config.magic == CLOCK_MAGIC,
        CLOCK_MAGIC_OFFSET <= at < CLOCK_MAGIC_OFFSET + 4,
        bit < 8,
    ensures
        decode(flip(image, at, bit)).clock_config.magic != CLOCK_MAGIC,
        verdict(flip(image, at, bit)) == Err::<Seq<PatchOpView>, ErrorView>(
            ErrorView::ClockConfigMagic {
                wrong_magic: decode(flip(image, at, bit)).clock_config.magic,
            },
        ),
{
    reveal(decode);
    lemma_flip_changes_word(image, CLOCK_MAGIC_OFFSET as int, at, bit);
    assert(word_at(flip(image, at, bit), MAGIC_OFFSET as int) == word_at(
        image,
        MAGIC_OFFSET as int,
    ));
    assert(word_at(flip(image, at, bit), FLASH_MAGIC_OFFSET as int) == word_at(
        image,
        FLASH_MAGIC_OFFSET as int,
    ));
}

/// An image with the right magic numbers whose payload ends behind the end of
/// the file is refused for that, with the file's length and the offset and
/// length that the header declares.
pub proof fn lemma_range_exceeds_file(image: Seq<u8>)
    requires
        HEADER_SIZE <= image.len() <= u64::MAX,
        decode(image).magic == HEAD_MAGIC,
        decode(image).flash_config.magic == FLASH_MAGIC,
        decode(image).clock_config.magic == CLOCK_MAGIC,
        decode(image).image_offset + decode(image).image_length > image.len(),
    ensures
        verdict(image) == Err::<Seq<PatchOpView>, ErrorView>(
            ErrorView::ImageOffsetOverflow {
                file_length: image.len() as u64,
                wrong_image_offset: decode(image).image_offset,
                wrong_image_length: decode(image).image_length,
            },
        ),
{
}

/// An image with a sound structure whose payload does not hash to the stored
/// digest is refused for that, with the digest of the bytes that the header
/// declares as payload.
pub proof fn lemma_digest_mismatch(image: Seq<u8>)
    requires
        HEADER_SIZE <= image.len() <= u64::MAX,
        structural_fault(decode(image), image.len() as u64) is None,
        sha256(payload(image, decode(image))) != decode(image).digest,
    ensures
        verdict(image) == Err::<Seq<PatchOpView>, ErrorView>(
            ErrorView::Sha256Checksum { wrong_checksum: sha256(payload(image, decode(image))) },
        ),
{
}

/// Whether some write of `ops` replaces position `i`.
pub open spec fn touched(ops: Seq<PatchOpView>, i: int) -> bool {
    exists|k: int| 0 <= k < ops.len() && covers(#[trigger] ops[k], i)
}

/// Writes that all fit leave the length as it was and change no byte but
/// those that one of them covers.
pub proof fn lemma_apply_leaves_the_rest(image: Seq<u8>, ops: Seq<PatchOpView>)
    requires
        all_fit(ops, image.len()),
    ensures
        apply(image, ops).len() == image.len(),
        forall|i: int|
            0 <= i < image.len() && !touched(ops, i) ==> #[trigger] apply(image, ops)[i]
                == image[i],
    decreases ops.len(),
{
    if ops.len() > 0 {
        let first = ops.first();
        let rest = ops.drop_first();
        let next = overwrite(image, first);
        assert(fits(ops[0], image.len()));
        assert forall|k: int| 0 <= k < rest.len() implies fits(#[trigger] rest[k], next.len()) by {
            assert(rest[k] == ops[k + 1]);
        }
        lemma_apply_leaves_the_rest(next, rest);
        assert forall|i: int| 0 <= i < image.len() && !touched(ops, i) implies apply(image, ops)[i]
            == image[i] by {
            assert(!covers(ops[0], i));
            assert(!touched(rest, i)) by {
                if touched(rest, i) {
                    let k = choose|k: int| 0 <= k < rest.len() && covers(#[trigger] rest[k], i);
                    assert(covers(ops[k + 1], i));
                }
            }
        }
    }
}

/// Whether position `i` lies in one of the two checksum fields of the header.
pub open spec fn in_checksum_field(i: int) -> bool {
    ||| FLASH_CHECKSUM_OFFSET <= i < FLASH_CHECKSUM_OFFSET + 4
    ||| CLOCK_CHECKSUM_OFFSET <= i < CLOCK_CHECKSUM_OFFSET + 4
}

/// The image after the writes that checking it calls for.
pub open spec fn patched(image: Seq<u8>) -> Seq<u8> {
    apply(image, checksum_patches(decode(image)))
}

/// Byte by byte, what the writes that checking an image calls for make of it:
/// each checksum field holds the CRC-32 of its record's fields, and every
/// other byte is as it was.
pub proof fn lemma_patched_bytes(image: Seq<u8>)
    requires
        HEADER_SIZE <= image.len(),
    ensures
        all_fit(checksum_patches(decode(image)), image.len()),
        patched(image).len() == image.len(),
        word_at(patched(image), FLASH_CHECKSUM_OFFSET as int) == le_bytes(
            crc32(decode(image).flash_config.fields),
        ),
        word_at(patched(image), CLOCK_CHECKSUM_OFFSET as int) == le_bytes(
            crc32(decode(image).clock_config.fields),
        ),
        forall|i: int|
            0 <= i < image.len() && !in_checksum_field(i) ==> #[trigger] patched(image)[i]
                == image[i],
        forall|i: int|
            0 <= i < image.len() ==> (#[trigger] touched(checksum_patches(decode(image)), i)
                <==> in_checksum_field(i)),
{
    let header = decode(image);
    let ops = checksum_patches(header);
    let flash = ops[0];
    let clock = ops[1];
    lemma_le_round_trip(crc32(header.flash_config.fields));
    lemma_le_round_trip(crc32(header.clock_config.fields));
    let once = overwrite(image, flash);
    let twice = overwrite(once, clock);
    assert(ops.drop_first() =~= seq![clock]);
    assert(ops.drop_first().drop_first() =~= Seq::<PatchOpView>::empty());
    reveal_with_fuel(apply, 3);
    assert(patched(image) == twice);
    assert(word_at(twice, FLASH_CHECKSUM_OFFSET as int) =~= flash.bytes);
    assert(word_at(twice, CLOCK_CHECKSUM_OFFSET as int) =~= clock.bytes);
    assert forall|i: int| 0 <= i < image.len() implies (touched(ops, i) <==> in_checksum_field(
        i,
    )) by {
        if in_checksum_field(i) {
            if FLASH_CHECKSUM_OFFSET <= i < FLASH_CHECKSUM_OFFSET + 4 {
                assert(covers(ops[0], i));
            } else {
                assert(covers(ops[1], i));
            }
        }
    }
}

/// Writes that were made once change nothing when they are made again.
pub proof fn lemma_patching_twice(image: Seq<u8>)
    requires
        HEADER_SIZE <= image.len(),
    ensures
        apply(patched(image), checksum_patches(decode(image))) == patched(image),
{
    let header = decode(image);
    let ops = checksum_patches(header);
    let flash = ops[0];
    let clock = ops[1];
    lemma_patched_bytes(image);
    lemma_le_round_trip(crc32(header.flash_config.fields));
    lemma_le_round_trip(crc32(header.clock_config.fields));
    let start = patched(image);
    let once = overwrite(start, flash);
    let twice = overwrite(once, clock);
    assert(ops.drop_first() =~= seq![clock]);
    assert(ops.drop_first().drop_first() =~= Seq::<PatchOpView>::empty());
    reveal_with_fuel(apply, 3);
    assert(apply(start, ops) == twice);
    assert forall|i: int| 0 <= i < start.len() implies twice[i] == start[i] by {
        if FLASH_CHECKSUM_OFFSET <= i < FLASH_CHECKSUM_OFFSET + 4 {
            assert(start[i] == word_at(start, FLASH_CHECKSUM_OFFSET as int)[i
                - FLASH_CHECKSUM_OFFSET]);
        } else if CLOCK_CHECKSUM_OFFSET <= i < CLOCK_CHECKSUM_OFFSET + 4 {
            assert(start[i] == word_at(start, CLOCK_CHECKSUM_OFFSET as int)[i
                - CLOCK_CHECKSUM_OFFSET]);
        }
    }
    assert(twice =~= start);
}

/// The header of a patched image: what it was, but for the two checksums,
/// which now are the CRC-32 of their records' fields.
pub proof fn lemma_patched_header(image: Seq<u8>)
    requires
        HEADER_SIZE <= image.len(),
    ensures
        decode(patched(image)).magic == decode(image).magic,
        decode(patched(image)).flash_config.magic == decode(image).flash_config.magic,
        decode(patched(image)).flash_config.fields == decode(image).flash_config.fields,
        decode(patched(image)).flash_config.checksum == crc32(decode(image).flash_config.fields),
        decode(patched(image)).clock_config.magic == decode(image).clock_config.magic,
        decode(patched(image)).clock_config.fields == decode(image).clock_config.fields,
        decode(patched(image)).clock_config.checksum == crc32(decode(image).clock_config.fields),
        decode(patched(image)).image_offset == decode(image).image_offset,
        decode(patched(image)).image_length == decode(image).image_length,
        decode(patched(image)).digest == decode(image).digest,
{
    lemma_patched_bytes(image);
    lemma_le_round_trip(crc32(decode(image).flash_config.fields));
    lemma_le_round_trip(crc32(decode(image).clock_config.fields));
    reveal(decode);
    let after = patched(image);
    assert(word_at(after, MAGIC_OFFSET as int) =~= word_at(image, MAGIC_OFFSET as int));
    assert(word_at(after, FLASH_MAGIC_OFFSET as int) =~= word_at(image, FLASH_MAGIC_OFFSET as int));
    assert(word_at(after, CLOCK_MAGIC_OFFSET as int) =~= word_at(image, CLOCK_MAGIC_OFFSET as int));
    assert(word_at(after, IMAGE_OFFSET_OFFSET as int) =~= word_at(
        image,
        IMAGE_OFFSET_OFFSET as int,
    ));
    assert(word_at(after, IMAGE_LENGTH_OFFSET as int) =~= word_at(
        image,
        IMAGE_LENGTH_OFFSET as int,
    ));
    assert(after.subrange(FLASH_FIELDS_OFFSET as int, FLASH_FIELDS_OFFSET + FLASH_FIELDS_SIZE)
        =~= image.subrange(FLASH_FIELDS_OFFSET as int, FLASH_FIELDS_OFFSET + FLASH_FIELDS_SIZE));
    assert(after.subrange(CLOCK_FIELDS_OFFSET as int, CLOCK_FIELDS_OFFSET + CLOCK_FIELDS_SIZE)
        =~= image.subrange(CLOCK_FIELDS_OFFSET as int, CLOCK_FIELDS_OFFSET + CLOCK_FIELDS_SIZE));
    assert(after.subrange(DIGEST_OFFSET as int, DIGEST_OFFSET + DIGEST_SIZE) =~= image.subrange(
        DIGEST_OFFSET as int,
        DIGEST_OFFSET + DIGEST_SIZE,
    ));
}

/// Checking and patching go round: where an image was found sound and was
/// patched, and the patch left the payload as it was, the patched image is
/// found sound too, checking it calls for the same writes, and making them
/// once more changes nothing, because each checksum field already holds the
/// value that is computed for it.
///
/// The patch leaves the payload as it was wherever the payload does not
/// reach into the header's checksum fields.
pub proof fn lemma_check_after_patch(image: Seq<u8>, ops: Seq<PatchOpView>)
    requires
        image.len() <= u64::MAX,
        verdict(image) == Ok::<Seq<PatchOpView>, ErrorView>(ops),
        payload(apply(image, ops), decode(image)) == payload(image, decode(image)),
    ensures
        verdict(apply(image, ops)) == Ok::<Seq<PatchOpView>, ErrorView>(ops),
        apply(apply(image, ops), ops) == apply(image, ops),
        decode(apply(image, ops)).flash_config.checksum == crc32(
            decode(apply(image, ops)).flash_config.fields,
        ),
        decode(apply(image, ops)).clock_config.checksum == crc32(
            decode(apply(image, ops)).clock_config.fields,
        ),
{
    lemma_patched_bytes(image);
    lemma_patched_header(image);
    lemma_patching_twice(image);
}

/// Whether the payload that the header of `image` declares holds no byte of
/// the header's checksum fields, as one that starts behind the header does.
pub open spec fn payload_clear_of_checksums(image: Seq<u8>) -> bool {
    forall|i: int|
        decode(image).image_offset <= i < decode(image).image_offset + decode(image).image_length
            ==> !in_checksum_field(i)
}

/// Patching is exact to the byte: the writes that checking a sound image
/// calls for keep its length, cover the header's two checksum fields and
/// nothing else, and leave every byte that they do not cover as it was. A
/// payload that holds no byte of those fields is therefore left as it was.
pub proof fn lemma_patch_is_byte_exact(image: Seq<u8>, ops: Seq<PatchOpView>)
    requires
        image.len() <= u64::MAX,
        verdict(image) == Ok::<Seq<PatchOpView>, ErrorView>(ops),
    ensures
        all_fit(ops, image.len()),
        apply(image, ops).len() == image.len(),
        forall|i: int|
            0 <= i < image.len() && !touched(ops, i) ==> #[trigger] apply(image, ops)[i]
                == image[i],
        forall|i: int|
            0 <= i < image.len() ==> (#[trigger] touched(ops, i) <==> in_checksum_field(i)),
        decode(image).image_offset >= HEADER_SIZE ==> payload_clear_of_checksums(image),
        payload_clear_of_checksums(image) ==> payload(apply(image, ops), decode(image))
            == payload(image, decode(image)),
{
    lemma_patched_bytes(image);
    assert(ops == checksum_patches(decode(image)));
    assert(apply(image, ops) == patched(image));
    if payload_clear_of_checksums(image) {
        assert(payload(apply(image, ops), decode(image)) =~= payload(image, decode(image)));
    }
}

} // verus!
