//! Checking an image piece by piece.
//!
//! A `Checker` never touches the medium that holds the image. It says which
//! bytes it needs next; whoever owns the medium reads them and hands over
//! what came of it, the bytes or the failure; the checker then either fails,
//! asks for more, or is done. The header comes first, then the payload in
//! pieces of at most `CHUNK_SIZE` bytes, so that an image of any size is
//! checked in bounded memory.

use vstd::prelude::*;
use vstd::slice::slice_subrange;
use crate::image::digest::{absorbed, sha256, PayloadHasher};
use crate::image::error::{Error, ErrorView, IoFailure};
use crate::image::header::{decode, parse, Header, HeaderView, HEADER_SIZE};
use crate::image::patch::{checksum_patches, generate, ops_view, PatchOp, PatchOpView};
use crate::image::validate::{compare_digest, digest_fault, structural_fault, validate};

verus! {

/// The most payload bytes that a checker asks for at once.
pub const CHUNK_SIZE: usize = 4096;

/// A range of the image that a checker needs to see.
#[derive(Clone, Copy, Debug, PartialEq, Eq, Structural)]
pub struct ReadRequest {
    /// Where the range starts, counted from the start of the file.
    pub offset: u64,
    /// How many bytes it holds.
    pub length: usize,
}

/// A check in progress.
pub struct Checker {
    total_length: u64,
    header: Option<Header>,
    consumed: u32,
    hasher: PayloadHasher,
}

/// What a checker hands back for a piece of the image that did not make it
/// fail.
pub enum Progress {
    /// More of the image is needed; the checker says which part.
    More(Checker),
    /// The image is sound; these writes bring its checksums up to date.
    Done(Vec<PatchOp>),
}

/// A check in progress as contracts speak of it.
pub struct CheckerView {
    /// Length of the file that is being checked.
    pub total_length: u64,
    /// The header, once it has been seen and found sound.
    pub header: Option<HeaderView>,
    /// The payload bytes seen so far.
    pub hashed: Seq<u8>,
}

/// A checker's answer as contracts speak of it.
pub enum ProgressView {
    More(CheckerView),
    Done(Seq<PatchOpView>),
}

impl CheckerView {
    /// What holds of every check in progress: the file can hold a header; a
    /// header that was accepted has no structural fault; and some of its
    /// payload is still to come.
    pub open spec fn wf(self) -> bool {
        &&& self.total_length >= HEADER_SIZE
        &&& match self.header {
            None => self.hashed.len() == 0,
            Some(header) => {
                &&& structural_fault(header, self.total_length) is None
                &&& self.hashed.len() < header.image_length
            },
        }
    }

    /// The part of the image that is needed next: the header, or the payload
    /// bytes behind those already seen, `CHUNK_SIZE` of them at most.
    pub open spec fn request(self) -> ReadRequest {
        match self.header {
            None => ReadRequest { offset: 0, length: HEADER_SIZE },
            Some(header) => {
                let left = header.image_length - self.hashed.len();
                ReadRequest {
                    offset: (header.image_offset + self.hashed.len()) as u64,
                    length: if left < CHUNK_SIZE {
                        left as usize
                    } else {
                        CHUNK_SIZE
                    },
                }
            },
        }
    }

    /// How far the check is from its end: every piece that is taken in makes
    /// this smaller.
    pub open spec fn distance(self) -> nat {
        match self.header {
            None => 0x1_0000_0000,
            Some(header) => (header.image_length - self.hashed.len()) as nat,
        }
    }
}

/// Where a check stands once the header is known and `hashed` holds the
/// payload bytes seen so far: more payload is needed, or all of it was seen and
/// its digest decides.
pub open spec fn settle(state: CheckerView) -> Result<ProgressView, ErrorView>
    recommends
        state.header is Some,
{
    let header = state.header->Some_0;
    if state.hashed.len() < header.image_length {
        Ok(ProgressView::More(state))
    } else {
        match digest_fault(header, sha256(state.hashed)) {
            Some(fault) => Err(fault),
            None => Ok(ProgressView::Done(checksum_patches(header))),
        }
    }
}

/// A reply to a request as contracts speak of it: the bytes that were read,
/// or what went wrong.
pub open spec fn reply_view(reply: Result<&[u8], IoFailure>) -> Result<Seq<u8>, IoFailure> {
    match reply {
        Ok(bytes) => Ok(bytes@),
        Err(failure) => Err(failure),
    }
}

/// What a checker in `state` answers when `bytes` are what was read at the
/// range it asked for. Fewer bytes than it asked for are an unexpected end of
/// file; of more, only as many as it asked for are looked at.
pub open spec fn take(state: CheckerView, bytes: Seq<u8>) -> Result<ProgressView, ErrorView> {
    let length = state.request().length as int;
    if bytes.len() < length {
        Err(ErrorView::Io(IoFailure::UnexpectedEof))
    } else {
        match state.header {
            None => {
                let header = decode(bytes.take(length));
                match structural_fault(header, state.total_length) {
                    Some(fault) => Err(fault),
                    None => settle(
                        CheckerView {
                            total_length: state.total_length,
                            header: Some(header),
                            hashed: Seq::empty(),
                        },
                    ),
                }
            },
            Some(header) => settle(
                CheckerView {
                    total_length: state.total_length,
                    header: Some(header),
                    hashed: state.hashed + bytes.take(length),
                },
            ),
        }
    }
}

/// What a checker in `state` answers to a reply: a failure to read ends the
/// check with that failure; bytes are taken in.
pub open spec fn step(state: CheckerView, reply: Result<Seq<u8>, IoFailure>) -> Result<
    ProgressView,
    ErrorView,
> {
    match reply {
        Ok(bytes) => take(state, bytes),
        Err(failure) => Err(ErrorView::Io(failure)),
    }
}

/// A checker's answer, or the error it failed with, as contracts speak of it.
pub open spec fn answer_view(answer: Result<Progress, Error>) -> Result<ProgressView, ErrorView> {
    match answer {
        Ok(Progress::More(checker)) => Ok(ProgressView::More(checker@)),
        Ok(Progress::Done(ops)) => Ok(ProgressView::Done(ops_view(ops@))),
        Err(e) => Err(e@),
    }
}

impl View for Checker {
    type V = CheckerView;

    closed spec fn view(&self) -> CheckerView {
        CheckerView {
            total_length: self.total_length,
            header: match self.header {
                None => None,
                Some(header) => Some(header@),
            },
            hashed: absorbed(self.hasher),
        }
    }
}

impl Checker {
    /// What holds of every checker: it is in a state that `start` and
    /// `advance` lead to, and its count of the payload bytes seen is right.
    #[verifier::type_invariant]
    spec fn inv(&self) -> bool {
        &&& self@.wf()
        &&& self.consumed == absorbed(self.hasher).len()
    }

    /// Starts the check of a file of `total_length` bytes.
    ///
    /// A file too short to hold a header is refused at once, with its length,
    /// before any of it is asked for.
    pub fn start(total_length: u64) -> (started: Result<Checker, Error>)
        ensures
            total_length < HEADER_SIZE ==> started is Err && started->Err_0@
                == (ErrorView::HeadLength { wrong_length: total_length }),
            total_length >= HEADER_SIZE ==> started is Ok && started->Ok_0@ == (CheckerView {
                total_length,
                header: None,
                hashed: Seq::empty(),
            }),
    {
        if total_length < HEADER_SIZE as u64 {
            return Err(Error::HeadLength { wrong_length: total_length });
        }
        Ok(Checker { total_length, header: None, consumed: 0, hasher: PayloadHasher::new() })
    }

    /// The part of the image that this checker needs next. It lies within the
    /// file.
    pub fn request(&self) -> (request: ReadRequest)
        ensures
            self@.wf(),
            request == self@.request(),
            request.length > 0,
            request.offset + request.length <= self@.total_length,
    {
        proof {
            use_type_invariant(self);
        }
        match &self.header {
            None => ReadRequest { offset: 0, length: HEADER_SIZE },
            Some(header) => {
                let left: u32 = header.image_length - self.consumed;
                ReadRequest {
                    offset: header.image_offset as u64 + self.consumed as u64,
                    length: if left < (CHUNK_SIZE as u32) {
                        left as usize
                    } else {
                        CHUNK_SIZE
                    },
                }
            },
        }
    }

    /// Takes in what came of reading the range that `request` names, and says
    /// how the check goes on.
    pub fn advance(self, reply: Result<&[u8], IoFailure>) -> (answer: Result<Progress, Error>)
        ensures
            answer_view(answer) == step(self@, reply_view(reply)),
    {
        let bytes = match reply {
            Ok(bytes) => bytes,
            Err(failure) => {
                return Err(Error::Io(failure));
            },
        };
        let request = self.request();
        if bytes.len() < request.length {
            return Err(Error::Io(IoFailure::UnexpectedEof));
        }
        let piece = slice_subrange(bytes, 0, request.length);
        assert(piece@ == bytes@.take(request.length as int));
        match self.header {
            None => self.take_header(piece),
            Some(header) => self.take_payload(header, piece),
        }
    }

    /// Takes in the header.
    fn take_header(self, piece: &[u8]) -> (answer: Result<Progress, Error>)
        requires
            self@.header is None,
            piece@.len() == HEADER_SIZE,
        ensures
            answer_view(answer) == match structural_fault(decode(piece@), self@.total_length) {
                Some(fault) => Err(fault),
                None => settle(
                    CheckerView {
                        total_length: self@.total_length,
                        header: Some(decode(piece@)),
                        hashed: Seq::empty(),
                    },
                ),
            },
    {
        proof {
            use_type_invariant(&self);
        }
        assert(self@.hashed =~= Seq::<u8>::empty());
        let header = match parse(piece) {
            Ok(header) => header,
            Err(e) => {
                return Err(e);
            },
        };
        match validate(&header, self.total_length) {
            Ok(()) => {},
            Err(e) => {
                return Err(e);
            },
        }
        Self::settle(self.total_length, header, 0, self.hasher)
    }

    /// Takes in a piece of the payload.
    fn take_payload(self, header: Header, piece: &[u8]) -> (answer: Result<Progress, Error>)
        requires
            self@.header == Some(header@),
            piece@.len() == self@.request().length,
        ensures
            answer_view(answer) == settle(
                CheckerView {
                    total_length: self@.total_length,
                    header: self@.header,
                    hashed: self@.hashed + piece@,
                },
            ),
    {
        proof {
            use_type_invariant(&self);
        }
        let length: usize = piece.len();
        let mut hasher = self.hasher;
        hasher.update(piece);
        Self::settle(self.total_length, header, self.consumed + length as u32, hasher)
    }

    /// Decides how the check goes on once the header is known to be sound and
    /// `consumed` bytes of the payload have gone into `hasher`.
    fn settle(total_length: u64, header: Header, consumed: u32, hasher: PayloadHasher) -> (answer:
        Result<Progress, Error>)
        requires
            total_length >= HEADER_SIZE,
            structural_fault(header@, total_length) is None,
            consumed <= header.image_length,
            consumed == absorbed(hasher).len(),
        ensures
            answer_view(answer) == settle(
                CheckerView { total_length, header: Some(header@), hashed: absorbed(hasher) },
            ),
    {
        if consumed < header.image_length {
            let next = Checker { total_length, header: Some(header), consumed, hasher };
            return Ok(Progress::More(next));
        }
        let computed = hasher.finalize();
        match compare_digest(&header, &computed) {
            Ok(()) => Ok(Progress::Done(generate(&header))),
            Err(e) => Err(e),
        }
    }
}

} // verus!
