//! The ledger, as the protocol reads it: digests, and what has been spent and
//! created.

use crate::field::Field;
use crate::field::Scalar;
use crate::serial_number::SerialNumber;
use vstd::prelude::*;

verus! {

/// A membership witness as plain values.
pub struct MerklePathView {
    /// The siblings from the leaf to the root.
    pub path: Seq<Field>,
    /// The position of the leaf.
    pub leaf_index: u64,
}

/// A witness that a commitment is in the ledger: the path from its leaf to
/// the root of the ledger's tree.
#[derive(Clone, Debug, PartialEq, Eq, Hash)]
pub struct MerklePath {
    pub path: Vec<Field>,
    pub leaf_index: u64,
}

impl View for MerklePath {
    type V = MerklePathView;

    open spec fn view(&self) -> MerklePathView {
        MerklePathView { path: self.path@, leaf_index: self.leaf_index }
    }
}

/// The empty witness as plain values.
pub open spec fn empty_path() -> MerklePathView {
    MerklePathView { path: Seq::empty(), leaf_index: 0 }
}

impl Default for MerklePath {
    /// The empty witness, which stands in for a record that is in no ledger.
    fn default() -> (r: MerklePath)
        ensures
            r@ == empty_path(),
    {
        MerklePath { path: Vec::new(), leaf_index: 0 }
    }
}

/// A ledger: what the protocol asks of it, and what it answers. The answers
/// are those of one state of the ledger: they do not change while a
/// transaction is built or checked. Whether a serial number is recorded
/// depends on its output alone, not on its proof; and the ledger recognizes
/// its own current digest.
pub trait Ledger {
    /// The current digest, or `None` where it cannot be had.
    spec fn spec_latest_digest(&self) -> Option<Field>;

    /// Whether the ledger recognizes a digest as one of its own.
    spec fn spec_is_valid_digest(&self, digest: Field) -> bool;

    /// Whether a serial number with the given output is recorded in the
    /// ledger.
    spec fn spec_contains_serial_number(&self, output: Scalar) -> bool;

    /// Whether a commitment is recorded in the ledger.
    spec fn spec_contains_commitment(&self, commitment: Field) -> bool;

    /// The membership witness of a commitment, or `None` where it cannot be
    /// had.
    spec fn spec_prove_cm(&self, commitment: Field) -> Option<MerklePathView>;

    /// The ledger recognizes its current digest.
    proof fn current_digest_is_recognized(&self)
        ensures
            self.spec_latest_digest() matches Some(digest) ==> self.spec_is_valid_digest(digest),
    ;

    /// Returns the current digest of the ledger.
    fn latest_digest(&self) -> (r: Option<Field>)
        ensures
            r == self.spec_latest_digest(),
    ;

    /// Returns whether the ledger recognizes the digest.
    fn is_valid_digest(&self, digest: &Field) -> (r: bool)
        ensures
            r == self.spec_is_valid_digest(*digest),
    ;

    /// Returns whether the serial number is recorded in the ledger: whether
    /// one with the same output is, whatever its proof.
    fn contains_serial_number(&self, serial_number: &SerialNumber) -> (r: bool)
        ensures
            r == self.spec_contains_serial_number(serial_number.spec_output()),
    ;

    /// Returns whether the commitment is recorded in the ledger.
    fn contains_commitment(&self, commitment: &Field) -> (r: bool)
        ensures
            r == self.spec_contains_commitment(*commitment),
    ;

    /// Returns the membership witness of the commitment.
    fn prove_cm(&self, commitment: &Field) -> (r: Option<MerklePath>)
        ensures
            r is Some <==> self.spec_prove_cm(*commitment) is Some,
            r matches Some(path) ==> Some(path@) == self.spec_prove_cm(*commitment),
    ;
}

} // verus!
