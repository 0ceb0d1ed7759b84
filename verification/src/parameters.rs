//! The parameters of the protocol: the fixed record counts, the two proof
//! backends with their keys, and the derivations that bind a transition.

use crate::field::Field;
use crate::field::Scalar;
use crate::record::EncryptedRecord;
use crate::record::EncryptedRecordView;
use crate::record::Execution;
use crate::record::LocalData;
use crate::record::Record;
use crate::snark::SNARK;
use crate::transition::TransactionAuthorization;
use crate::variables::InnerCircuit;
use crate::variables::InnerPublicVariables;
use crate::variables::OuterCircuit;
use crate::variables::OuterPublicVariables;
use rand::rngs::StdRng;
use vstd::prelude::*;

verus! {

/// What one instance of the protocol is made with. Every component takes it
/// as an argument.
pub trait Parameters: Sized {
    /// The backend of the inner proof.
    type InnerSNARK: SNARK<AssignedCircuit = InnerCircuit, VerifierInput = InnerPublicVariables>;

    /// The backend of the outer proof.
    type OuterSNARK: SNARK<
        AssignedCircuit = OuterCircuit<
            <Self::InnerSNARK as SNARK>::PreparedVerificationParameters,
            <Self::InnerSNARK as SNARK>::Proof,
        >,
        VerifierInput = OuterPublicVariables,
    >;

    /// The number of input records of a transaction.
    spec fn spec_num_input_records(&self) -> usize;

    /// The number of output records of a transaction.
    spec fn spec_num_output_records(&self) -> usize;

    /// The identifier of the inner circuit.
    spec fn spec_inner_circuit_id(&self) -> Field;

    /// The verifying key of the inner circuit.
    spec fn spec_inner_verifying_key(&self) -> <Self::InnerSNARK as SNARK>::PreparedVerificationParameters;

    /// The verifying key of the outer circuit.
    spec fn spec_outer_verifying_key(&self) -> <Self::OuterSNARK as SNARK>::PreparedVerificationParameters;

    /// Whether the parameters hold the proving key of the inner circuit.
    spec fn spec_has_inner_proving_key(&self) -> bool;

    /// Whether the parameters hold the proving key of the outer circuit.
    spec fn spec_has_outer_proving_key(&self) -> bool;

    /// The hash of the bytes of an encrypted record, or `None` where it
    /// cannot be computed.
    spec fn spec_encrypted_record_hash(&self, record: EncryptedRecordView) -> Option<Field>;

    /// Returns the number of input records of a transaction.
    fn num_input_records(&self) -> (r: usize)
        ensures
            r == self.spec_num_input_records(),
    ;

    /// Returns the number of output records of a transaction.
    fn num_output_records(&self) -> (r: usize)
        ensures
            r == self.spec_num_output_records(),
    ;

    /// Returns the identifier of the inner circuit.
    fn inner_circuit_id(&self) -> (r: Field)
        ensures
            r == self.spec_inner_circuit_id(),
    ;

    /// Returns the proving key of the inner circuit, if the parameters hold
    /// it.
    fn inner_proving_key(&self) -> (r: Option<&<Self::InnerSNARK as SNARK>::ProvingParameters>)
        ensures
            r is Some <==> self.spec_has_inner_proving_key(),
    ;

    /// Returns the verifying key of the inner circuit.
    fn inner_verifying_key(&self) -> (r: <Self::InnerSNARK as SNARK>::PreparedVerificationParameters)
        ensures
            r == self.spec_inner_verifying_key(),
    ;

    /// Returns the proving key of the outer circuit, if the parameters hold
    /// it.
    fn outer_proving_key(&self) -> (r: Option<&<Self::OuterSNARK as SNARK>::ProvingParameters>)
        ensures
            r is Some <==> self.spec_has_outer_proving_key(),
    ;

    /// Returns the verifying key of the outer circuit.
    fn outer_verifying_key(&self) -> (r: &<Self::OuterSNARK as SNARK>::PreparedVerificationParameters)
        ensures
            *r == self.spec_outer_verifying_key(),
    ;

    /// Derives the local data of an authorization, which ties the kernel and
    /// all the records together for the programs.
    fn to_local_data(&self, authorization: &TransactionAuthorization, rng: &mut StdRng) -> (r:
        Option<LocalData>);

    /// Derives the program commitment of an authorization and the randomness
    /// it was made with.
    fn to_program_commitment(
        &self,
        authorization: &TransactionAuthorization,
        rng: &mut StdRng,
    ) -> (r: Option<(Field, Scalar)>);

    /// Encrypts an output record, and returns it with the randomizer of the
    /// encryption.
    fn encrypt_record(&self, record: &Record, rng: &mut StdRng) -> (r: Option<
        (EncryptedRecord, Scalar),
    >);

    /// Returns the hash of an encrypted record.
    fn encrypted_record_hash(&self, record: &EncryptedRecord) -> (r: Option<Field>)
        ensures
            r == self.spec_encrypted_record_hash(record@),
    ;
}

/// A program that can be run on the local data of a transition, for the
/// record at one position.
pub trait Executable {
    /// What the program comes to for the record at `index` on the local
    /// data, or `None` where it cannot be run.
    spec fn spec_execute(&self, index: usize, local_data: LocalData) -> Option<Execution>;

    /// Runs the program for the record at `index`, and returns the proof that
    /// it ran correctly.
    fn execute(&self, index: usize, local_data: &LocalData) -> (r: Option<Execution>)
        ensures
            r == self.spec_execute(index, *local_data),
    ;
}

} // verus!
