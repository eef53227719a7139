//! Patch operations: the writes that bring a header's checksums up to date,
//! and how a list of writes changes the bytes it is applied to.

use vstd::prelude::*;
use crate::image::codec::{le_bytes, write_le_u32};
use crate::image::crc::{checksum, crc32};
use crate::image::error::{Error, IoFailure};
use crate::image::header::{Header, HeaderView, CLOCK_CHECKSUM_OFFSET, FLASH_CHECKSUM_OFFSET};

verus! {

/// One write: `bytes` replace what lies at `offset` from the start of the file.
#[derive(Debug, PartialEq, Eq)]
pub struct PatchOp {
    /// Where the first byte goes, counted from the start of the file.
    pub offset: u64,
    /// The bytes to write.
    pub bytes: Vec<u8>,
}

/// A write as contracts speak of it.
pub struct PatchOpView {
    pub offset: u64,
    pub bytes: Seq<u8>,
}

impl View for PatchOp {
    type V = PatchOpView;

    open spec fn view(&self) -> PatchOpView {
        PatchOpView { offset: self.offset, bytes: self.bytes@ }
    }
}

impl Clone for PatchOp {
    fn clone(&self) -> (copy: Self)
        ensures
            copy@ == self@,
    {
        PatchOp { offset: self.offset, bytes: self.bytes.clone() }
    }
}

/// A list of writes as contracts speak of it.
pub open spec fn ops_view(ops: Seq<PatchOp>) -> Seq<PatchOpView> {
    ops.map_values(|op: PatchOp| op@)
}

/// The writes that a header calls for: the CRC-32 of each configuration
/// record's fields goes to that record's checksum field, first for the flash
/// configuration, then for the clock configuration. Both are always written,
/// whatever the header holds there.
pub open spec fn checksum_patches(header: HeaderView) -> Seq<PatchOpView> {
    seq![
        PatchOpView {
            offset: FLASH_CHECKSUM_OFFSET as u64,
            bytes: le_bytes(crc32(header.flash_config.fields)),
        },
        PatchOpView {
            offset: CLOCK_CHECKSUM_OFFSET as u64,
            bytes: le_bytes(crc32(header.clock_config.fields)),
        },
    ]
}

/// Whether a write stays within `len` bytes.
pub open spec fn fits(op: PatchOpView, len: nat) -> bool {
    op.offset + op.bytes.len() <= len
}

/// Whether position `i` is one that the write replaces.
pub open spec fn covers(op: PatchOpView, i: int) -> bool {
    op.offset <= i < op.offset + op.bytes.len()
}

/// The bytes after one write: those that it covers are replaced, the others
/// stay.
pub open spec fn overwrite(image: Seq<u8>, op: PatchOpView) -> Seq<u8>
    recommends
        fits(op, image.len()),
{
    Seq::new(
        image.len(),
        |i: int|
            if covers(op, i) {
                op.bytes[i - op.offset]
            } else {
                image[i]
            },
    )
}

/// The bytes after the writes of `ops`, made in order up to the first that
/// does not fit; that one and those behind it are not made.
pub open spec fn apply(image: Seq<u8>, ops: Seq<PatchOpView>) -> Seq<u8>
    decreases ops.len(),
{
    if ops.len() == 0 || !fits(ops.first(), image.len()) {
        image
    } else {
        apply(overwrite(image, ops.first()), ops.drop_first())
    }
}

/// Whether every write of `ops` stays within `len` bytes.
pub open spec fn all_fit(ops: Seq<PatchOpView>, len: nat) -> bool {
    forall|k: int| 0 <= k < ops.len() ==> fits(#[trigger] ops[k], len)
}

/// Computes the writes that bring the checksums of `header` up to date.
pub fn generate(header: &Header) -> (ops: Vec<PatchOp>)
    ensures
        ops_view(ops@) == checksum_patches(header@),
{
    let flash = PatchOp {
        offset: FLASH_CHECKSUM_OFFSET as u64,
        bytes: write_le_u32(checksum(header.flash_config.fields.as_slice())),
    };
    let clock = PatchOp {
        offset: CLOCK_CHECKSUM_OFFSET as u64,
        bytes: write_le_u32(checksum(header.clock_config.fields.as_slice())),
    };
    let mut ops: Vec<PatchOp> = Vec::new();
    ops.push(flash);
    ops.push(clock);
    assert(ops_view(ops@) =~= checksum_patches(header@));
    ops
}

/// Makes one write that fits.
fn write_op(sink: &mut Vec<u8>, op: &PatchOp)
    requires
        fits(op@, old(sink)@.len()),
    ensures
        final(sink)@ == overwrite(old(sink)@, op@),
{
    let len: usize = sink.len();
    let start: usize = op.offset as usize;
    let mut i: usize = 0;
    while i < op.bytes.len()
        invariant
            i <= op.bytes.len(),
            start == op.offset,
            sink@.len() == len,
            old(sink)@.len() == len,
            start + op.bytes.len() <= sink@.len(),
            forall|k: int| 0 <= k < sink@.len() ==> sink@[k] == if start <= k < start + i {
                op.bytes@[k - start]
            } else {
                old(sink)@[k]
            },
        decreases op.bytes.len() - i,
    {
        sink[start + i] = op.bytes[i];
        i += 1;
    }
    assert(sink@ =~= overwrite(old(sink)@, op@));
}

/// Applies `ops` to `sink` in order, each at its offset.
///
/// A write that would reach past the end of `sink` fails: it is not made,
/// those behind it are not made either, and those before it stay made.
pub fn process(sink: &mut Vec<u8>, ops: &[PatchOp]) -> (done: Result<(), Error>)
    ensures
        final(sink)@ == apply(old(sink)@, ops_view(ops@)),
        final(sink)@.len() == old(sink)@.len(),
        all_fit(ops_view(ops@), old(sink)@.len()) ==> done is Ok,
        !all_fit(ops_view(ops@), old(sink)@.len()) ==> done == Err::<(), Error>(
            Error::Io(IoFailure::WriteZero),
        ),
{
    let ghost views = ops_view(ops@);
    let mut i: usize = 0;
    assert(views.skip(0) == views);
    while i < ops.len()
        invariant
            i <= ops.len(),
            views == ops_view(ops@),
            sink@.len() == old(sink)@.len(),
            apply(old(sink)@, views) == apply(sink@, views.skip(i as int)),
            forall|k: int| 0 <= k < i ==> fits(#[trigger] views[k], sink@.len()),
        decreases ops.len() - i,
    {
        let op = &ops[i];
        proof {
            assert(views.skip(i as int).first() == op@);
            assert(views.skip(i as int).drop_first() == views.skip(i + 1));
        }
        let len: u64 = sink.len() as u64;
        if op.offset > len || op.bytes.len() as u64 > len - op.offset {
            assert(!fits(views[i as int], sink@.len()));
            return Err(Error::Io(IoFailure::WriteZero));
        }
        write_op(sink, op);
        i += 1;
    }
    Ok(())
}

} // verus!
