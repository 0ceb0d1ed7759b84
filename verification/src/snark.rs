//! The proof backend, as the protocol calls it.

use rand::rngs::StdRng;
use snarkvm_algorithms::SNARKError;
use vstd::prelude::*;

verus! {

/// The error of a proof backend, `snarkvm_algorithms::SNARKError`: carried
/// through as it is, nothing is read from it.
#[verifier::external_type_specification]
#[verifier::external_body]
pub struct ExSNARKError(SNARKError);

/// A succinct non-interactive argument of knowledge: the backend that makes
/// and checks the proofs of a transaction.
pub trait SNARK {
    type AssignedCircuit;

    type Circuit;

    type Proof;

    type PreparedVerificationParameters;

    type ProvingParameters;

    type VerificationParameters;

    type VerifierInput: View;

    /// What `verify` answers: a function of the key, of what the input stands
    /// for, and of the proof.
    spec fn spec_verify(
        verifier_key: Self::PreparedVerificationParameters,
        input: <Self::VerifierInput as View>::V,
        proof: Self::Proof,
    ) -> Result<bool, SNARKError>;

    /// Makes the proving and the verifying parameters of a circuit.
    fn setup(circuit: Self::Circuit, rng: &mut StdRng) -> (r: Result<
        (Self::ProvingParameters, Self::PreparedVerificationParameters),
        SNARKError,
    >);

    /// Proves that the circuit, with its inputs and witness assigned, is
    /// satisfied.
    fn prove(
        parameter: &Self::ProvingParameters,
        input_and_witness: Self::AssignedCircuit,
        rng: &mut StdRng,
    ) -> (r: Result<Self::Proof, SNARKError>);

    /// Checks a proof against a public input.
    fn verify(
        verifier_key: &Self::PreparedVerificationParameters,
        input: &Self::VerifierInput,
        proof: &Self::Proof,
    ) -> (r: Result<bool, SNARKError>)
        ensures
            r == Self::spec_verify(*verifier_key, input@, *proof),
    ;
}

} // verus!
