//! SHA-256 of the firmware payload, computed by the `sha2` crate.
//!
//! The hash function itself is not verified here. What this module believes
//! of `sha2` is written on `PayloadHasher` and its three methods, and nowhere
//! else: everything above them is proved from those statements.

use vstd::prelude::*;
use sha2::Digest;

verus! {

/// Length of a SHA-256 digest in bytes.
pub const DIGEST_SIZE: usize = 32;

/// The SHA-256 digest of a byte string: what `sha2::Sha256` returns from
/// `finalize` once it has taken in exactly these bytes. Nothing is said here
/// of how it is computed; it is a function of the bytes alone.
pub uninterp spec fn sha256(message: Seq<u8>) -> Seq<u8>;

/// The bytes that a running hasher has taken in so far, in order.
pub uninterp spec fn absorbed(hasher: PayloadHasher) -> Seq<u8>;

/// A running SHA-256 computation: a `sha2::Sha256`, fed piece by piece.
///
/// `sha2::Sha256` is an alias for a nest of generic types bounded by traits
/// of `digest` and `typenum`, which cannot be declared to the verifier one by
/// one; so the hasher is kept in this struct, which the verifier does not
/// look into. What it holds is spoken of through `absorbed`.
#[verifier::external_body]
pub struct PayloadHasher {
    inner: sha2::Sha256,
}

impl PayloadHasher {
    /// Makes a hasher with `sha2::Sha256::new` (`Digest::new`).
    ///
    /// Believed without proof: a new hasher has taken in nothing.
    #[verifier::external_body]
    pub(crate) fn new() -> (hasher: PayloadHasher)
        ensures
            absorbed(hasher) == Seq::<u8>::empty(),
    {
        PayloadHasher { inner: sha2::Sha256::new() }
    }

    /// Feeds `data` to the hasher with `Digest::update`.
    ///
    /// Believed without proof: the hasher has then taken in what it had taken
    /// in before, followed by `data`.
    #[verifier::external_body]
    pub(crate) fn update(&mut self, data: &[u8])
        ensures
            absorbed(*final(self)) == absorbed(*old(self)) + data@,
    {
        self.inner.update(data)
    }

    /// Ends the computation with `Digest::finalize` and hands out the digest
    /// as an array.
    ///
    /// Believed without proof: the digest is 32 bytes long and depends on
    /// nothing but the bytes that the hasher has taken in, however they were
    /// split over calls of `update`.
    #[verifier::external_body]
    pub(crate) fn finalize(self) -> (digest: [u8; 32])
        ensures
            digest@ == sha256(absorbed(self)),
    {
        self.inner.finalize().into()
    }
}

/// Computes the SHA-256 digest of `bytes`.
pub fn digest(bytes: &[u8]) -> (digest: [u8; 32])
    ensures
        digest@ == sha256(bytes@),
{
    let mut hasher = PayloadHasher::new();
    hasher.update(bytes);
    assert(Seq::<u8>::empty() + bytes@ =~= bytes@);
    hasher.finalize()
}

} // verus!
