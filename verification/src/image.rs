//! ROM boot images: decoding the header, checking it against the file that
//! carries it, and computing the writes that bring its checksums up to date.
//!
//! `check` decides whether an image is sound and, where it is, returns the
//! writes to make; `process` makes them. An image that does not fit in memory
//! is checked piece by piece with a [`checker::Checker`].

pub mod checker;
pub mod codec;
pub mod crc;
pub mod digest;
pub mod error;
pub mod header;
pub mod laws;
pub mod patch;
pub mod reader;
pub mod validate;

pub use crate::image::error::{Error, IoFailure};
pub use crate::image::patch::{process, PatchOp};

use vstd::prelude::*;
use crate::image::checker::{take, Checker, CheckerView, Progress, ProgressView};
use crate::image::digest::sha256;
use crate::image::error::ErrorView;
use crate::image::header::{decode, HeaderView, HEADER_SIZE};
use crate::image::patch::{checksum_patches, ops_view, PatchOpView};
use crate::image::reader::{read_exact, total_length};
use crate::image::validate::{digest_fault, structural_fault};

verus! {

/// The payload that `header` declares, out of `image`.
pub open spec fn payload(image: Seq<u8>, header: HeaderView) -> Seq<u8> {
    image.subrange(header.image_offset as int, header.image_offset + header.image_length)
}

/// What checking `image` comes to: the first fault found, or the writes that
/// bring the checksums of a sound image up to date.
///
/// The length is looked at first, then the structure of the header, then the
/// digest of the payload.
pub open spec fn verdict(image: Seq<u8>) -> Result<Seq<PatchOpView>, ErrorView>
    recommends
        image.len() <= u64::MAX,
{
    if image.len() < HEADER_SIZE {
        Err(ErrorView::HeadLength { wrong_length: image.len() as u64 })
    } else {
        let header = decode(image);
        match structural_fault(header, image.len() as u64) {
            Some(fault) => Err(fault),
            None => match digest_fault(header, sha256(payload(image, header))) {
                Some(fault) => Err(fault),
                None => Ok(checksum_patches(header)),
            },
        }
    }
}

/// The result of `check` as contracts speak of it.
pub open spec fn outcome_view(outcome: Result<Vec<PatchOp>, Error>) -> Result<
    Seq<PatchOpView>,
    ErrorView,
> {
    match outcome {
        Ok(ops) => Ok(ops_view(ops@)),
        Err(e) => Err(e@),
    }
}

/// Whether a check in `state` has so far seen what `image` holds.
pub open spec fn follows(state: CheckerView, image: Seq<u8>) -> bool {
    &&& image.len() == state.total_length
    &&& match state.header {
        None => true,
        Some(header) => {
            &&& header == decode(image)
            &&& state.hashed == image.subrange(
                header.image_offset as int,
                header.image_offset + state.hashed.len(),
            )
        },
    }
}

/// The bytes of `image` that a check in `state` asks for.
pub open spec fn requested(state: CheckerView, image: Seq<u8>) -> Seq<u8> {
    image.subrange(
        state.request().offset as int,
        state.request().offset + state.request().length,
    )
}

/// A checker that is handed, piece by piece, what an image holds at the ranges
/// it asks for comes to the verdict on that image: each piece either ends the
/// check with that verdict, or leaves a checker that has seen more of the same
/// image and is nearer to its end.
pub proof fn lemma_step_follows(state: CheckerView, image: Seq<u8>)
    requires
        state.wf(),
        follows(state, image),
    ensures
        match take(state, requested(state, image)) {
            Ok(ProgressView::More(next)) => follows(next, image) && next.distance()
                < state.distance(),
            Ok(ProgressView::Done(ops)) => verdict(image) == Ok::<Seq<PatchOpView>, ErrorView>(ops),
            Err(fault) => verdict(image) == Err::<Seq<PatchOpView>, ErrorView>(fault),
        },
{
    let bytes = requested(state, image);
    let length = state.request().length as int;
    assert(bytes.take(length) == bytes);
    match state.header {
        None => {
            crate::image::header::lemma_decode_prefix(bytes, image);
            let header = decode(image);
            if structural_fault(header, state.total_length) is None {
                assert(image.subrange(header.image_offset as int, header.image_offset + 0)
                    == Seq::<u8>::empty());
                if header.image_length == 0 {
                    assert(payload(image, header) == Seq::<u8>::empty());
                }
            }
        },
        Some(header) => {
            let seen = state.hashed + bytes;
            assert(seen == image.subrange(
                header.image_offset as int,
                header.image_offset + seen.len(),
            ));
        },
    }
}

/// Checks an image that lies in memory.
///
/// Returns the writes that bring its checksums up to date, or the first fault
/// found. Nothing is written.
pub fn check(image: &[u8]) -> (outcome: Result<Vec<PatchOp>, Error>)
    ensures
        outcome_view(outcome) == verdict(image@),
{
    let mut checker = match Checker::start(total_length(image)) {
        Ok(checker) => checker,
        Err(e) => {
            return Err(e);
        },
    };
    loop
        invariant
            follows(checker@, image@),
        decreases checker@.distance(),
    {
        let request = checker.request();
        let reply = read_exact(image, request.offset, request.length);
        proof {
            lemma_step_follows(checker@, image@);
        }
        match checker.advance(reply) {
            Ok(Progress::More(next)) => {
                checker = next;
            },
            Ok(Progress::Done(ops)) => {
                return Ok(ops);
            },
            Err(e) => {
                return Err(e);
            },
        }
    }
}

} // verus!
