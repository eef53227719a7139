use bl_soc::image::checker::{Checker, Progress, ReadRequest, CHUNK_SIZE};
use bl_soc::image::codec::{read_be_u32, read_le_u32, write_le_u32};
use bl_soc::image::crc::checksum;
use bl_soc::image::header::{
    parse, CLOCK_CHECKSUM_OFFSET, CLOCK_FIELDS_OFFSET, CLOCK_MAGIC_OFFSET, DIGEST_OFFSET,
    FLASH_CHECKSUM_OFFSET, FLASH_FIELDS_OFFSET, FLASH_MAGIC_OFFSET, HEADER_SIZE,
    IMAGE_LENGTH_OFFSET, IMAGE_OFFSET_OFFSET, MAGIC_OFFSET,
};
use bl_soc::image::patch::generate;
use bl_soc::image::reader::{read_exact, total_length};
use bl_soc::image::digest::digest;
use bl_soc::image::validate::{
    compare_digest, validate, verify_payload, CLOCK_MAGIC, FLASH_MAGIC, HEAD_MAGIC,
};
use bl_soc::image::{check, process, Error, IoFailure, PatchOp};
use sha2::{Digest, Sha256};

const FLASH_CRC: u32 = 0x51d4_3541;
const CLOCK_CRC: u32 = 0x39e6_b628;

const SHA256_ABC: [u8; 32] = [
    0xba, 0x78, 0x16, 0xbf, 0x8f, 0x01, 0xcf, 0xea, 0x41, 0x41, 0x40, 0xde, 0x5d, 0xae, 0x22, 0x23,
    0xb0, 0x03, 0x61, 0xa3, 0x96, 0x17, 0x7a, 0x9c, 0xb4, 0x10, 0xff, 0x61, 0xf2, 0x00, 0x15, 0xad,
];

const SHA256_EMPTY: [u8; 32] = [
    0xe3, 0xb0, 0xc4, 0x42, 0x98, 0xfc, 0x1c, 0x14, 0x9a, 0xfb, 0xf4, 0xc8, 0x99, 0x6f, 0xb9, 0x24,
    0x27, 0xae, 0x41, 0xe4, 0x64, 0x9b, 0x93, 0x4c, 0xa4, 0x95, 0x99, 0x1b, 0x78, 0x52, 0xb8, 0x55,
];

const SHA256_BIG: [u8; 32] = [
    0x47, 0x0b, 0x2c, 0xd7, 0x1b, 0xff, 0x57, 0xce, 0x8b, 0xe0, 0xbe, 0x3f, 0xc2, 0x3d, 0xf2, 0x73,
    0x05, 0x2c, 0x4b, 0xb1, 0x0a, 0x12, 0x35, 0xfd, 0xdb, 0x8f, 0x15, 0x8d, 0x6f, 0x92, 0x85, 0x46,
];

fn put_be(image: &mut [u8], at: usize, value: u32) {
    image[at..at + 4].copy_from_slice(&value.to_be_bytes());
}

fn put_le(image: &mut [u8], at: usize, value: u32) {
    image[at..at + 4].copy_from_slice(&value.to_le_bytes());
}

fn external_sha256(bytes: &[u8]) -> [u8; 32] {
    Sha256::digest(bytes).into()
}

/// A header of `HEADER_SIZE` bytes with the right magic numbers, known
/// configuration fields and both checksums right, for a payload of
/// `image_length` bytes at `image_offset` with the given digest.
fn header(image_offset: u32, image_length: u32, digest: [u8; 32]) -> Vec<u8> {
    let mut bytes = vec![0u8; HEADER_SIZE];
    put_be(&mut bytes, MAGIC_OFFSET, HEAD_MAGIC);
    put_be(&mut bytes, FLASH_MAGIC_OFFSET, FLASH_MAGIC);
    for i in 0..84 {
        bytes[FLASH_FIELDS_OFFSET + i] = (i * 3 + 1) as u8;
    }
    put_le(&mut bytes, FLASH_CHECKSUM_OFFSET, FLASH_CRC);
    put_be(&mut bytes, CLOCK_MAGIC_OFFSET, CLOCK_MAGIC);
    for i in 0..20 {
        bytes[CLOCK_FIELDS_OFFSET + i] = (i * 7 + 2) as u8;
    }
    put_le(&mut bytes, CLOCK_CHECKSUM_OFFSET, CLOCK_CRC);
    put_le(&mut bytes, IMAGE_OFFSET_OFFSET, image_offset);
    put_le(&mut bytes, IMAGE_LENGTH_OFFSET, image_length);
    bytes[DIGEST_OFFSET..DIGEST_OFFSET + 32].copy_from_slice(&digest);
    bytes
}

/// A sound image: the header above, followed at once by `payload`.
fn sound_image(payload: &[u8]) -> Vec<u8> {
    let mut image = header(HEADER_SIZE as u32, payload.len() as u32, external_sha256(payload));
    image.extend_from_slice(payload);
    image
}

fn sample_payload(length: usize) -> Vec<u8> {
    (0..length).map(|i| (i * 5 + 3) as u8).collect()
}

fn expected_ops() -> Vec<PatchOp> {
    vec![
        PatchOp { offset: 0x60, bytes: vec![0x41, 0x35, 0xd4, 0x51] },
        PatchOp { offset: 0x7c, bytes: vec![0x28, 0xb6, 0xe6, 0x39] },
    ]
}

#[test]
fn crc32_of_the_check_string() {
    assert_eq!(checksum(b"123456789"), 0xcbf4_3926);
}

#[test]
fn crc32_of_nothing_is_zero() {
    assert_eq!(checksum(&[]), 0);
}

#[test]
fn crc32_of_one_zero_byte() {
    assert_eq!(checksum(&[0]), 0xd202_ef8d);
}

#[test]
fn crc32_of_zeroed_fields() {
    assert_eq!(checksum(&[0u8; 84]), 0x74cc_ea76);
    assert_eq!(checksum(&[0u8; 20]), 0x0fd5_9b8d);
}

#[test]
fn big_endian_words_are_read_most_significant_byte_first() {
    let bytes = [0xaa, 0x42, 0x46, 0x4e, 0x50, 0xbb];
    assert_eq!(read_be_u32(&bytes, 1), 0x4246_4e50);
    assert_eq!(read_be_u32(&bytes, 0), 0xaa42_464e);
}

#[test]
fn little_endian_words_are_read_least_significant_byte_first() {
    let bytes = [0xaa, 0x78, 0x56, 0x34, 0x12, 0xbb];
    assert_eq!(read_le_u32(&bytes, 1), 0x1234_5678);
    assert_eq!(read_le_u32(&bytes, 2), 0xbb12_3456);
}

#[test]
fn little_endian_words_are_written_least_significant_byte_first() {
    assert_eq!(write_le_u32(0x1234_5678), vec![0x78, 0x56, 0x34, 0x12]);
    assert_eq!(write_le_u32(0), vec![0, 0, 0, 0]);
    assert_eq!(write_le_u32(0xffff_ffff), vec![0xff, 0xff, 0xff, 0xff]);
    assert_eq!(read_le_u32(&write_le_u32(0xdead_beef), 0), 0xdead_beef);
}

#[test]
fn parse_reads_every_field_from_its_place() {
    let bytes = header(0x1000, 0x2345, SHA256_ABC);
    let parsed = parse(&bytes).unwrap();
    assert_eq!(parsed.magic, 0x4246_4e50);
    assert_eq!(parsed.flash_config.magic, 0x4643_4647);
    assert_eq!(parsed.flash_config.fields[0], 1);
    assert_eq!(parsed.flash_config.fields[83], 250);
    assert_eq!(parsed.flash_config.checksum, FLASH_CRC);
    assert_eq!(parsed.clock_config.magic, 0x5043_4647);
    assert_eq!(parsed.clock_config.fields[0], 2);
    assert_eq!(parsed.clock_config.fields[19], 135);
    assert_eq!(parsed.clock_config.checksum, CLOCK_CRC);
    assert_eq!(parsed.image_offset, 0x1000);
    assert_eq!(parsed.image_length, 0x2345);
    assert_eq!(parsed.digest, SHA256_ABC);
}

#[test]
fn parse_spells_the_magic_numbers_as_letters() {
    let bytes = header(0, 0, SHA256_EMPTY);
    assert_eq!(&bytes[0..4], b"BFNP");
    assert_eq!(&bytes[8..12], b"FCFG");
    assert_eq!(&bytes[0x64..0x68], b"PCFG");
}

#[test]
fn parse_does_not_judge_values() {
    let bytes = vec![0xffu8; HEADER_SIZE + 10];
    let parsed = parse(&bytes).unwrap();
    assert_eq!(parsed.magic, 0xffff_ffff);
    assert_eq!(parsed.image_offset, 0xffff_ffff);
    assert_eq!(parsed.image_length, 0xffff_ffff);
    assert_eq!(parsed.digest, [0xff; 32]);
}

#[test]
fn parse_refuses_a_short_header_with_its_length() {
    assert_eq!(parse(&[]), Err(Error::HeadLength { wrong_length: 0 }));
    assert_eq!(parse(&[0x42; 255]), Err(Error::HeadLength { wrong_length: 255 }));
    assert!(parse(&[0x42; 256]).is_ok());
}

#[test]
fn validate_accepts_a_sound_header() {
    let parsed = parse(&header(256, 64, SHA256_ABC)).unwrap();
    assert_eq!(validate(&parsed, 320), Ok(()));
    assert_eq!(validate(&parsed, 321), Ok(()));
}

#[test]
fn validate_reports_faults_in_a_fixed_order() {
    let mut bytes = vec![0u8; HEADER_SIZE];
    put_le(&mut bytes, IMAGE_OFFSET_OFFSET, 100);
    put_le(&mut bytes, IMAGE_LENGTH_OFFSET, 100);
    let all_wrong = parse(&bytes).unwrap();
    assert_eq!(validate(&all_wrong, 10), Err(Error::MagicNumber { wrong_magic: 0 }));
    put_be(&mut bytes, MAGIC_OFFSET, HEAD_MAGIC);
    let head_right = parse(&bytes).unwrap();
    assert_eq!(validate(&head_right, 10), Err(Error::FlashConfigMagic { wrong_magic: 0 }));
    put_be(&mut bytes, FLASH_MAGIC_OFFSET, FLASH_MAGIC);
    let flash_right = parse(&bytes).unwrap();
    assert_eq!(validate(&flash_right, 10), Err(Error::ClockConfigMagic { wrong_magic: 0 }));
    put_be(&mut bytes, CLOCK_MAGIC_OFFSET, CLOCK_MAGIC);
    let magics_right = parse(&bytes).unwrap();
    assert_eq!(
        validate(&magics_right, 10),
        Err(Error::ImageOffsetOverflow {
            file_length: 10,
            wrong_image_offset: 100,
            wrong_image_length: 100,
        })
    );
    assert_eq!(validate(&magics_right, 200), Ok(()));
    assert_eq!(
        validate(&magics_right, 199),
        Err(Error::ImageOffsetOverflow {
            file_length: 199,
            wrong_image_offset: 100,
            wrong_image_length: 100,
        })
    );
}

#[test]
fn compare_digest_reports_the_computed_digest() {
    let parsed = parse(&header(256, 3, SHA256_ABC)).unwrap();
    assert_eq!(compare_digest(&parsed, &SHA256_ABC), Ok(()));
    assert_eq!(
        compare_digest(&parsed, &SHA256_EMPTY),
        Err(Error::Sha256Checksum { wrong_checksum: SHA256_EMPTY })
    );
    let mut nearly = SHA256_ABC;
    nearly[31] ^= 1;
    assert_eq!(
        compare_digest(&parsed, &nearly),
        Err(Error::Sha256Checksum { wrong_checksum: nearly })
    );
}

#[test]
fn digest_is_sha256() {
    assert_eq!(digest(b"abc"), SHA256_ABC);
    assert_eq!(digest(b""), SHA256_EMPTY);
    let big: Vec<u8> = (0..10_000usize).map(|i| (i * 31 + 7) as u8).collect();
    assert_eq!(digest(&big), SHA256_BIG);
    assert_eq!(digest(&big), external_sha256(&big));
}

#[test]
fn verify_payload_hashes_what_it_is_given() {
    let parsed = parse(&header(256, 3, SHA256_ABC)).unwrap();
    assert_eq!(verify_payload(&parsed, b"abc"), Ok(()));
    assert_eq!(
        verify_payload(&parsed, b"abd"),
        Err(Error::Sha256Checksum { wrong_checksum: external_sha256(b"abd") })
    );
    assert_eq!(
        verify_payload(&parsed, b""),
        Err(Error::Sha256Checksum { wrong_checksum: SHA256_EMPTY })
    );
}

#[test]
fn generate_writes_both_checksums_whatever_is_stored() {
    let right = parse(&header(256, 0, SHA256_EMPTY)).unwrap();
    assert_eq!(generate(&right), expected_ops());
    let mut bytes = header(256, 0, SHA256_EMPTY);
    put_le(&mut bytes, FLASH_CHECKSUM_OFFSET, 0);
    put_le(&mut bytes, CLOCK_CHECKSUM_OFFSET, 0xffff_ffff);
    let wrong = parse(&bytes).unwrap();
    assert_eq!(generate(&wrong), expected_ops());
}

#[test]
fn reader_hands_out_ranges_within_the_image() {
    let image = [10u8, 11, 12, 13, 14];
    assert_eq!(total_length(&image), 5);
    assert_eq!(read_exact(&image, 1, 3), Ok(&image[1..4]));
    assert_eq!(read_exact(&image, 0, 5), Ok(&image[..]));
    assert_eq!(read_exact(&image, 5, 0), Ok(&image[5..]));
}

#[test]
fn reader_fails_where_bytes_are_missing() {
    let image = [10u8, 11, 12, 13, 14];
    assert_eq!(read_exact(&image, 3, 3), Err(IoFailure::UnexpectedEof));
    assert_eq!(read_exact(&image, 6, 0), Err(IoFailure::UnexpectedEof));
    assert_eq!(read_exact(&image, u64::MAX, 1), Err(IoFailure::UnexpectedEof));
    assert_eq!(read_exact(&image, 0, usize::MAX), Err(IoFailure::UnexpectedEof));
}

#[test]
fn check_refuses_every_short_image_with_its_length() {
    for length in 0..HEADER_SIZE {
        let image = vec![0x42u8; length];
        assert_eq!(check(&image), Err(Error::HeadLength { wrong_length: length as u64 }));
    }
}

#[test]
fn check_refuses_a_short_image_even_with_the_right_magic() {
    let image = sound_image(&sample_payload(64));
    assert_eq!(check(&image[..255]), Err(Error::HeadLength { wrong_length: 255 }));
    assert_eq!(check(&image[..4]), Err(Error::HeadLength { wrong_length: 4 }));
}

#[test]
fn checker_refuses_a_short_file_before_asking_for_anything() {
    assert!(matches!(Checker::start(0), Err(Error::HeadLength { wrong_length: 0 })));
    assert!(matches!(Checker::start(255), Err(Error::HeadLength { wrong_length: 255 })));
    let checker = Checker::start(256).unwrap();
    assert_eq!(checker.request(), ReadRequest { offset: 0, length: 256 });
}

#[test]
fn check_reports_each_flipped_bit_of_the_head_magic() {
    let sound = sound_image(&sample_payload(64));
    for at in 0..4 {
        for bit in 0..8 {
            let mut image = sound.clone();
            image[MAGIC_OFFSET + at] ^= 1 << bit;
            let wrong_magic = HEAD_MAGIC ^ (1 << (8 * (3 - at) + bit));
            assert_eq!(check(&image), Err(Error::MagicNumber { wrong_magic }));
        }
    }
}

#[test]
fn check_reports_each_flipped_bit_of_the_flash_magic() {
    let sound = sound_image(&sample_payload(64));
    for at in 0..4 {
        for bit in 0..8 {
            let mut image = sound.clone();
            image[FLASH_MAGIC_OFFSET + at] ^= 1 << bit;
            let wrong_magic = FLASH_MAGIC ^ (1 << (8 * (3 - at) + bit));
            assert_eq!(check(&image), Err(Error::FlashConfigMagic { wrong_magic }));
        }
    }
}

#[test]
fn check_reports_each_flipped_bit_of_the_clock_magic() {
    let sound = sound_image(&sample_payload(64));
    for at in 0..4 {
        for bit in 0..8 {
            let mut image = sound.clone();
            image[CLOCK_MAGIC_OFFSET + at] ^= 1 << bit;
            let wrong_magic = CLOCK_MAGIC ^ (1 << (8 * (3 - at) + bit));
            assert_eq!(check(&image), Err(Error::ClockConfigMagic { wrong_magic }));
        }
    }
}

#[test]
fn check_reports_the_first_wrong_magic_only() {
    let mut image = sound_image(&sample_payload(64));
    put_be(&mut image, CLOCK_MAGIC_OFFSET, 0x1111_1111);
    put_le(&mut image, IMAGE_LENGTH_OFFSET, 10_000);
    assert_eq!(check(&image), Err(Error::ClockConfigMagic { wrong_magic: 0x1111_1111 }));
    put_be(&mut image, FLASH_MAGIC_OFFSET, 0x2222_2222);
    assert_eq!(check(&image), Err(Error::FlashConfigMagic { wrong_magic: 0x2222_2222 }));
    put_be(&mut image, MAGIC_OFFSET, 0x3333_3333);
    assert_eq!(check(&image), Err(Error::MagicNumber { wrong_magic: 0x3333_3333 }));
}

#[test]
fn check_refuses_a_payload_that_ends_behind_the_file() {
    let mut image = sound_image(&sample_payload(64));
    put_le(&mut image, IMAGE_LENGTH_OFFSET, 65);
    assert_eq!(
        check(&image),
        Err(Error::ImageOffsetOverflow {
            file_length: 320,
            wrong_image_offset: 256,
            wrong_image_length: 65,
        })
    );
    put_le(&mut image, IMAGE_LENGTH_OFFSET, 64);
    put_le(&mut image, IMAGE_OFFSET_OFFSET, 257);
    assert_eq!(
        check(&image),
        Err(Error::ImageOffsetOverflow {
            file_length: 320,
            wrong_image_offset: 257,
            wrong_image_length: 64,
        })
    );
}

#[test]
fn check_refuses_the_largest_offset_and_length_without_wrapping() {
    let mut image = sound_image(&sample_payload(64));
    put_le(&mut image, IMAGE_OFFSET_OFFSET, 0xffff_ffff);
    put_le(&mut image, IMAGE_LENGTH_OFFSET, 0xffff_ffff);
    assert_eq!(
        check(&image),
        Err(Error::ImageOffsetOverflow {
            file_length: 320,
            wrong_image_offset: 0xffff_ffff,
            wrong_image_length: 0xffff_ffff,
        })
    );
    put_le(&mut image, IMAGE_LENGTH_OFFSET, 1);
    assert_eq!(
        check(&image),
        Err(Error::ImageOffsetOverflow {
            file_length: 320,
            wrong_image_offset: 0xffff_ffff,
            wrong_image_length: 1,
        })
    );
}

#[test]
fn check_reports_the_digest_of_the_declared_payload() {
    let mut image = sound_image(&sample_payload(64));
    image[300] ^= 0x80;
    let computed = external_sha256(&image[256..320]);
    assert_eq!(check(&image), Err(Error::Sha256Checksum { wrong_checksum: computed }));
}

#[test]
fn check_reports_the_computed_digest_not_the_stored_one() {
    let mut image = header(256, 3, SHA256_EMPTY);
    image.extend_from_slice(b"abc");
    assert_eq!(check(&image), Err(Error::Sha256Checksum { wrong_checksum: SHA256_ABC }));
}

#[test]
fn check_hashes_only_the_declared_range() {
    let mut image = header(260, 3, SHA256_ABC);
    image.extend_from_slice(b"....abc....");
    assert_eq!(check(&image), Ok(expected_ops()));
    put_le(&mut image, IMAGE_OFFSET_OFFSET, 261);
    let computed = external_sha256(b"bc.");
    assert_eq!(check(&image), Err(Error::Sha256Checksum { wrong_checksum: computed }));
}

#[test]
fn check_accepts_an_empty_payload() {
    let image = header(256, 0, SHA256_EMPTY);
    assert_eq!(check(&image), Ok(expected_ops()));
    let elsewhere = header(17, 0, SHA256_EMPTY);
    assert_eq!(check(&elsewhere), Ok(expected_ops()));
}

#[test]
fn check_accepts_a_known_digest() {
    let mut image = header(256, 3, SHA256_ABC);
    image.extend_from_slice(b"abc");
    assert_eq!(check(&image), Ok(expected_ops()));
}

#[test]
fn check_hashes_a_payload_of_many_pieces() {
    let payload: Vec<u8> = (0..10_000usize).map(|i| (i * 31 + 7) as u8).collect();
    let mut image = header(256, 10_000, SHA256_BIG);
    image.extend_from_slice(&payload);
    assert_eq!(check(&image), Ok(expected_ops()));
    image[256 + 9_999] ^= 1;
    let computed = external_sha256(&image[256..]);
    assert_eq!(check(&image), Err(Error::Sha256Checksum { wrong_checksum: computed }));
}

#[test]
fn a_header_with_a_wrong_flash_checksum_is_patched() {
    let payload = sample_payload(64);
    let mut image = header(256, 64, external_sha256(&payload));
    image.extend_from_slice(&payload);
    put_le(&mut image, FLASH_CHECKSUM_OFFSET, 0x0000_0000);
    assert_eq!(image.len(), 320);

    let ops = check(&image).unwrap();
    let on_flash_checksum: Vec<&PatchOp> =
        ops.iter().filter(|op| op.offset == FLASH_CHECKSUM_OFFSET as u64).collect();
    assert_eq!(on_flash_checksum.len(), 1);
    assert_eq!(on_flash_checksum[0].bytes, FLASH_CRC.to_le_bytes().to_vec());
    assert_eq!(ops, expected_ops());

    let mut patched = image.clone();
    assert_eq!(process(&mut patched, &ops), Ok(()));
    assert_eq!(&patched[256..320], &payload[..]);
    assert_eq!(read_le_u32(&patched, FLASH_CHECKSUM_OFFSET), FLASH_CRC);
    assert_eq!(read_le_u32(&patched, CLOCK_CHECKSUM_OFFSET), CLOCK_CRC);
}

#[test]
fn checking_a_patched_image_succeeds_and_patching_again_changes_nothing() {
    let mut image = sound_image(&sample_payload(500));
    put_le(&mut image, FLASH_CHECKSUM_OFFSET, 0x1234_5678);
    put_le(&mut image, CLOCK_CHECKSUM_OFFSET, 0x9abc_def0);
    let ops = check(&image).unwrap();
    let mut patched = image.clone();
    process(&mut patched, &ops).unwrap();
    assert_ne!(patched, image);

    let again = check(&patched).unwrap();
    assert_eq!(again, ops);
    let mut twice = patched.clone();
    process(&mut twice, &again).unwrap();
    assert_eq!(twice, patched);
}

#[test]
fn patching_changes_only_the_bytes_that_the_ops_name() {
    let mut image = sound_image(&sample_payload(500));
    put_le(&mut image, FLASH_CHECKSUM_OFFSET, 0);
    put_le(&mut image, CLOCK_CHECKSUM_OFFSET, 0);
    let ops = check(&image).unwrap();
    let mut patched = image.clone();
    process(&mut patched, &ops).unwrap();
    assert_eq!(patched.len(), image.len());
    for i in 0..image.len() {
        let named = ops
            .iter()
            .any(|op| op.offset <= i as u64 && (i as u64) < op.offset + op.bytes.len() as u64);
        if !named {
            assert_eq!(patched[i], image[i]);
        }
        assert_eq!(named, (0x60..0x64).contains(&i) || (0x7c..0x80).contains(&i));
    }
    assert_eq!(&patched[256..], &image[256..]);
}

#[test]
fn a_payload_that_holds_a_checksum_field_does_not_survive_the_patch() {
    let mut image = header(FLASH_CHECKSUM_OFFSET as u32, 4, external_sha256(&[0, 0, 0, 0]));
    put_le(&mut image, FLASH_CHECKSUM_OFFSET, 0);
    let ops = check(&image).unwrap();
    assert_eq!(ops, expected_ops());
    let mut patched = image.clone();
    process(&mut patched, &ops).unwrap();
    assert_eq!(
        check(&patched),
        Err(Error::Sha256Checksum { wrong_checksum: external_sha256(&FLASH_CRC.to_le_bytes()) })
    );
}

#[test]
fn a_payload_that_holds_a_right_checksum_survives_the_patch() {
    let image = header(FLASH_CHECKSUM_OFFSET as u32, 4, external_sha256(&FLASH_CRC.to_le_bytes()));
    let ops = check(&image).unwrap();
    let mut patched = image.clone();
    process(&mut patched, &ops).unwrap();
    assert_eq!(patched, image);
    assert_eq!(check(&patched), Ok(ops));
}

#[test]
fn a_cloned_op_writes_the_same() {
    let op = PatchOp { offset: 2, bytes: vec![7, 8, 9] };
    let copy = op.clone();
    assert_eq!(copy, op);
    assert_eq!(copy.offset, 2);
    assert_eq!(copy.bytes, vec![7, 8, 9]);
}

#[test]
fn process_writes_each_op_at_its_offset_in_order() {
    let mut sink = vec![0u8; 8];
    let ops = vec![
        PatchOp { offset: 1, bytes: vec![1, 2, 3] },
        PatchOp { offset: 3, bytes: vec![9] },
        PatchOp { offset: 6, bytes: vec![7, 8] },
        PatchOp { offset: 8, bytes: vec![] },
    ];
    assert_eq!(process(&mut sink, &ops), Ok(()));
    assert_eq!(sink, vec![0, 1, 2, 9, 0, 0, 7, 8]);
}

#[test]
fn process_with_no_ops_changes_nothing() {
    let mut sink = vec![5u8, 6, 7];
    assert_eq!(process(&mut sink, &[]), Ok(()));
    assert_eq!(sink, vec![5, 6, 7]);
    let mut empty: Vec<u8> = Vec::new();
    assert_eq!(process(&mut empty, &[]), Ok(()));
}

#[test]
fn process_stops_at_the_first_write_that_does_not_fit() {
    let mut sink = vec![0u8; 4];
    let ops = vec![
        PatchOp { offset: 0, bytes: vec![1] },
        PatchOp { offset: 3, bytes: vec![2, 3] },
        PatchOp { offset: 1, bytes: vec![4] },
    ];
    assert_eq!(process(&mut sink, &ops), Err(Error::Io(IoFailure::WriteZero)));
    assert_eq!(sink, vec![1, 0, 0, 0]);
}

#[test]
fn process_refuses_offsets_behind_the_end() {
    let mut sink = vec![0u8; 4];
    let far = vec![PatchOp { offset: u64::MAX, bytes: vec![1] }];
    assert_eq!(process(&mut sink, &far), Err(Error::Io(IoFailure::WriteZero)));
    let just_behind = vec![PatchOp { offset: 5, bytes: vec![] }];
    assert_eq!(process(&mut sink, &just_behind), Err(Error::Io(IoFailure::WriteZero)));
    assert_eq!(sink, vec![0, 0, 0, 0]);
}

#[test]
fn checker_asks_for_the_header_then_for_the_payload_in_pieces() {
    let payload: Vec<u8> = (0..10_000usize).map(|i| (i * 31 + 7) as u8).collect();
    let mut image = header(300, 10_000, SHA256_BIG);
    image.extend_from_slice(&[0u8; 44]);
    image.extend_from_slice(&payload);

    let mut checker = Checker::start(image.len() as u64).unwrap();
    let mut requests: Vec<ReadRequest> = Vec::new();
    let ops = loop {
        let request = checker.request();
        requests.push(request);
        let from = request.offset as usize;
        match checker.advance(Ok(&image[from..from + request.length])).unwrap() {
            Progress::More(next) => checker = next,
            Progress::Done(ops) => break ops,
        }
    };
    assert_eq!(ops, expected_ops());
    assert_eq!(CHUNK_SIZE, 4096);
    assert_eq!(
        requests,
        vec![
            ReadRequest { offset: 0, length: 256 },
            ReadRequest { offset: 300, length: 4096 },
            ReadRequest { offset: 4396, length: 4096 },
            ReadRequest { offset: 8492, length: 1808 },
        ]
    );
}

#[test]
fn checker_looks_at_no_more_than_it_asked_for() {
    let mut image = header(256, 3, SHA256_ABC);
    image.extend_from_slice(b"abcdef");
    let checker = Checker::start(image.len() as u64).unwrap();
    let checker = match checker.advance(Ok(&image)).unwrap() {
        Progress::More(next) => next,
        Progress::Done(_) => panic!("the payload was not seen yet"),
    };
    assert_eq!(checker.request(), ReadRequest { offset: 256, length: 3 });
    match checker.advance(Ok(&image[256..])).unwrap() {
        Progress::More(_) => panic!("all of the payload was seen"),
        Progress::Done(ops) => assert_eq!(ops, expected_ops()),
    }
}

#[test]
fn checker_reports_a_short_read() {
    let mut image = header(256, 3, SHA256_ABC);
    image.extend_from_slice(b"abc");
    let checker = Checker::start(image.len() as u64).unwrap();
    assert!(matches!(
        checker.advance(Ok(&image[..255])),
        Err(Error::Io(IoFailure::UnexpectedEof))
    ));
    let checker = Checker::start(image.len() as u64).unwrap();
    let checker = match checker.advance(Ok(&image[..256])).unwrap() {
        Progress::More(next) => next,
        Progress::Done(_) => panic!("the payload was not seen yet"),
    };
    assert!(matches!(
        checker.advance(Ok(&image[256..258])),
        Err(Error::Io(IoFailure::UnexpectedEof))
    ));
}

#[test]
fn checker_ends_on_a_failed_read() {
    let mut image = header(256, 3, SHA256_ABC);
    image.extend_from_slice(b"abc");
    let checker = Checker::start(image.len() as u64).unwrap();
    assert!(matches!(
        checker.advance(Err(IoFailure::Medium { code: 5 })),
        Err(Error::Io(IoFailure::Medium { code: 5 }))
    ));
    let checker = Checker::start(image.len() as u64).unwrap();
    let checker = match checker.advance(Ok(&image[..256])).unwrap() {
        Progress::More(next) => next,
        Progress::Done(_) => panic!("the payload was not seen yet"),
    };
    assert!(matches!(
        checker.advance(Err(IoFailure::UnexpectedEof)),
        Err(Error::Io(IoFailure::UnexpectedEof))
    ));
}

#[test]
fn checker_reports_what_check_reports() {
    let mut image = sound_image(&sample_payload(5000));
    image[4000] ^= 1;
    let expected = check(&image);
    let mut checker = Checker::start(image.len() as u64).unwrap();
    let outcome = loop {
        let request = checker.request();
        let from = request.offset as usize;
        match checker.advance(Ok(&image[from..from + request.length])) {
            Ok(Progress::More(next)) => checker = next,
            Ok(Progress::Done(ops)) => break Ok(ops),
            Err(e) => break Err(e),
        }
    };
    assert_eq!(outcome, expected);
    assert!(matches!(outcome, Err(Error::Sha256Checksum { .. })));
}

#[test]
fn checker_ends_on_the_header_where_the_payload_is_empty() {
    let image = header(256, 0, SHA256_EMPTY);
    let checker = Checker::start(256).unwrap();
    match checker.advance(Ok(&image)).unwrap() {
        Progress::More(_) => panic!("there is no payload to ask for"),
        Progress::Done(ops) => assert_eq!(ops, expected_ops()),
    }
    let wrong = header(256, 0, SHA256_ABC);
    let checker = Checker::start(256).unwrap();
    assert!(matches!(
        checker.advance(Ok(&wrong)),
        Err(Error::Sha256Checksum { wrong_checksum }) if wrong_checksum == SHA256_EMPTY
    ));
}
