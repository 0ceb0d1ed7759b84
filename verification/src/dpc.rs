//! The protocol: authorizing a state transition, executing it into a
//! transaction, and validating transactions against a ledger.

use crate::account::PrivateKey;
use crate::account::Signature;
use crate::duplicates::has_duplicate_fields;
use crate::duplicates::has_duplicate_serial_numbers;
use crate::duplicates::serial_number_outputs;
use crate::duplicates::spec_has_duplicates;
use crate::error::Error;
use crate::field::Field;
use crate::field::Scalar;
use crate::ledger::Ledger;
use crate::ledger::MerklePath;
use crate::ledger::MerklePathView;
use crate::kernel::TransactionKernel;
use crate::ledger::empty_path;
use crate::parameters::Executable;
use crate::parameters::Parameters;
use crate::record::EncryptedRecord;
use crate::record::Execution;
use crate::record::LocalData;
use crate::record::Record;
use crate::record::encrypted_record_views;
use crate::serial_number::SerialNumber;
use crate::snark::SNARK;
use crate::transaction::Transaction;
use crate::transaction::TransactionView;
use crate::transition::StateTransition;
use crate::transition::TransactionAuthorization;
use crate::transition::count_spenders;
use crate::transition::resolve_keys;
use crate::transition::signing_slots;
use crate::transition::slot_key;
use crate::transition::spec_authorized;
use crate::variables::InnerCircuit;
use crate::variables::InnerPrivateVariables;
use crate::variables::InnerPublicVariables;
use crate::variables::InnerPublicVariablesView;
use crate::variables::OuterCircuit;
use crate::variables::OuterPrivateVariables;
use crate::variables::OuterPublicVariables;
use crate::variables::spec_encrypted_record_hashes;
use crate::variables::spec_outer_public_variables_from;
use rand::rngs::StdRng;
use snarkvm_algorithms::SNARKError;
use std::marker::PhantomData;
use vstd::prelude::*;

verus! {

/// The checks that a transaction passes before it is accepted, in the order
/// in which they are made.
#[derive(Clone, Copy, Debug, PartialEq, Eq, Structural)]
pub enum Check {
    /// There is one serial number for each input record.
    SerialNumberCount,
    /// No serial number stands twice in the transaction: no two of its
    /// serial numbers have the same output.
    DuplicateSerialNumbers,
    /// There is one commitment for each output record.
    CommitmentCount,
    /// No commitment stands twice in the transaction.
    DuplicateCommitments,
    /// No serial number is in the ledger yet.
    SerialNumberInLedger,
    /// No commitment is in the ledger yet.
    CommitmentInLedger,
    /// The ledger recognizes the digest that the transaction was built on.
    LedgerDigest,
    /// There is one encrypted record for each output record.
    EncryptedRecordCount,
    /// The public variables of the outer circuit can be reconstructed.
    PublicVariables,
    /// The backend accepts the outer proof.
    Proof,
}

/// What the validation of a transaction comes to: acceptance, or the first
/// check that the transaction fails.
#[derive(Clone, Copy, Debug, PartialEq, Eq, Structural)]
pub enum Verdict {
    Accepted,
    Rejected(Check),
}

/// The protocol over its parameters.
pub struct DPC<C: Parameters>(PhantomData<C>);

/// Some serial number of the list is recorded in the ledger.
pub open spec fn spent_in_ledger<L: Ledger>(ledger: L, serial_numbers: Seq<SerialNumber>) -> bool {
    exists|i: int|
        0 <= i < serial_numbers.len() && ledger.spec_contains_serial_number(
            (#[trigger] serial_numbers[i]).spec_output(),
        )
}

/// Some commitment of the list is recorded in the ledger.
pub open spec fn created_in_ledger<L: Ledger>(ledger: L, commitments: Seq<Field>) -> bool {
    exists|i: int|
        0 <= i < commitments.len() && ledger.spec_contains_commitment(#[trigger] commitments[i])
}

/// The backend accepts the outer proof of the transaction against the public
/// variables that the transaction stands for.
pub open spec fn spec_proof_verifies<C: Parameters>(
    parameters: C,
    transaction: TransactionView<<C::OuterSNARK as SNARK>::Proof>,
) -> bool {
    spec_outer_public_variables_from(parameters, transaction) matches Some(variables)
        && C::OuterSNARK::spec_verify(
        parameters.spec_outer_verifying_key(),
        variables,
        transaction.proof,
    ) == Ok::<bool, SNARKError>(true)
}

/// The verdict on a transaction against a ledger: the first check that fails
/// decides.
pub open spec fn spec_validate<C: Parameters, L: Ledger>(
    parameters: C,
    transaction: TransactionView<<C::OuterSNARK as SNARK>::Proof>,
    ledger: L,
) -> Verdict {
    if transaction.kernel.serial_numbers.len() != parameters.spec_num_input_records() {
        Verdict::Rejected(Check::SerialNumberCount)
    } else if spec_has_duplicates(serial_number_outputs(transaction.kernel.serial_numbers)) {
        Verdict::Rejected(Check::DuplicateSerialNumbers)
    } else if transaction.kernel.commitments.len() != parameters.spec_num_output_records() {
        Verdict::Rejected(Check::CommitmentCount)
    } else if spec_has_duplicates(transaction.kernel.commitments) {
        Verdict::Rejected(Check::DuplicateCommitments)
    } else if spent_in_ledger(ledger, transaction.kernel.serial_numbers) {
        Verdict::Rejected(Check::SerialNumberInLedger)
    } else if created_in_ledger(ledger, transaction.kernel.commitments) {
        Verdict::Rejected(Check::CommitmentInLedger)
    } else if !ledger.spec_is_valid_digest(transaction.ledger_digest) {
        Verdict::Rejected(Check::LedgerDigest)
    } else if transaction.encrypted_records.len() != parameters.spec_num_output_records() {
        Verdict::Rejected(Check::EncryptedRecordCount)
    } else if spec_outer_public_variables_from(parameters, transaction) is None {
        Verdict::Rejected(Check::PublicVariables)
    } else if !spec_proof_verifies(parameters, transaction) {
        Verdict::Rejected(Check::Proof)
    } else {
        Verdict::Accepted
    }
}

/// The transaction is accepted against the ledger.
pub open spec fn spec_verify<C: Parameters, L: Ledger>(
    parameters: C,
    transaction: TransactionView<<C::OuterSNARK as SNARK>::Proof>,
    ledger: L,
) -> bool {
    spec_validate(parameters, transaction, ledger) == Verdict::Accepted
}

/// The verdicts on the transactions of a list, each against the ledger alone.
pub open spec fn spec_validate_transactions<C: Parameters, L: Ledger>(
    parameters: C,
    transactions: Seq<Transaction<<C::OuterSNARK as SNARK>::Proof>>,
    ledger: L,
) -> Seq<Verdict> {
    transactions.map_values(
        |transaction: Transaction<<C::OuterSNARK as SNARK>::Proof>|
            spec_validate(parameters, transaction@, ledger),
    )
}

/// Every transaction of the list is accepted against the ledger.
pub open spec fn spec_verify_transactions<C: Parameters, L: Ledger>(
    parameters: C,
    transactions: Seq<Transaction<<C::OuterSNARK as SNARK>::Proof>>,
    ledger: L,
) -> bool {
    forall|i: int|
        0 <= i < transactions.len() ==> spec_verify(
            parameters,
            (#[trigger] transactions[i])@,
            ledger,
        )
}

/// Every verdict of the list is an acceptance.
pub open spec fn all_accepted(verdicts: Seq<Verdict>) -> bool {
    forall|i: int| 0 <= i < verdicts.len() ==> #[trigger] verdicts[i] == Verdict::Accepted
}

/// Returns whether every verdict of the list is an acceptance.
pub fn all_verdicts_accepted(verdicts: &Vec<Verdict>) -> (r: bool)
    ensures
        r == all_accepted(verdicts@),
{
    let mut index: usize = 0;
    while index < verdicts.len()
        invariant
            index <= verdicts.len(),
            forall|i: int| 0 <= i < index ==> #[trigger] verdicts[i] == Verdict::Accepted,
        decreases verdicts.len() - index,
    {
        match verdicts[index] {
            Verdict::Accepted => {},
            Verdict::Rejected(_) => {
                return false;
            },
        }
        index += 1;
    }
    true
}

/// The input records that get a witness: the first `num_input_records` of
/// the list, or all of them where there are fewer.
pub open spec fn witnessed_records(input_records: Seq<Record>, num_input_records: usize) -> Seq<
    Record,
> {
    if num_input_records <= input_records.len() {
        input_records.take(num_input_records as int)
    } else {
        input_records
    }
}

/// The membership witness of an input record: the empty one for a dummy,
/// else the ledger's witness of the record's commitment, or `None` where the
/// ledger has none to give.
pub open spec fn spec_input_witness<L: Ledger>(ledger: L, record: Record) -> Option<
    MerklePathView,
> {
    if record.is_dummy {
        Some(empty_path())
    } else {
        ledger.spec_prove_cm(record.commitment)
    }
}

/// The ledger has a witness for each of the records.
pub open spec fn spec_witnesses_available<L: Ledger>(ledger: L, records: Seq<Record>) -> bool {
    forall|i: int| 0 <= i < records.len() ==> spec_input_witness(ledger, #[trigger] records[i]) is Some
}

/// Returns the membership witness of each input record, or `LedgerAccess`
/// where the ledger fails to give one.
#[verifier::loop_isolation(false)]
pub fn input_witnesses<L: Ledger>(
    ledger: &L,
    input_records: &Vec<Record>,
    num_input_records: usize,
) -> (r: Result<Vec<MerklePath>, Error>)
    ensures
        r is Ok <==> spec_witnesses_available(
            *ledger,
            witnessed_records(input_records@, num_input_records),
        ),
        r matches Err(e) ==> e == Error::LedgerAccess,
        r matches Ok(witnesses) ==> witnesses.len() == witnessed_records(
            input_records@,
            num_input_records,
        ).len() && forall|i: int|
            0 <= i < witnesses.len() ==> Some((#[trigger] witnesses[i])@) == spec_input_witness(
                *ledger,
                input_records[i],
            ),
{
    let ghost records = witnessed_records(input_records@, num_input_records);
    let count = if num_input_records <= input_records.len() {
        num_input_records
    } else {
        input_records.len()
    };
    let mut witnesses: Vec<MerklePath> = Vec::new();
    let mut index: usize = 0;
    while index < count
        invariant
            index <= count,
            witnesses.len() == index,
            forall|i: int|
                0 <= i < index ==> Some((#[trigger] witnesses[i])@) == spec_input_witness(
                    *ledger,
                    input_records[i],
                ),
        decreases count - index,
    {
        let record = &input_records[index];
        let witness = if record.is_dummy() {
            MerklePath::default()
        } else {
            match ledger.prove_cm(&record.commitment()) {
                Some(witness) => witness,
                None => {
                    assert(records[index as int] == *record);
                    assert(spec_input_witness(*ledger, records[index as int]) is None);
                    return Err(Error::LedgerAccess);
                },
            }
        };
        witnesses.push(witness);
        index += 1;
    }
    assert forall|i: int| 0 <= i < records.len() implies spec_input_witness(
        *ledger,
        #[trigger] records[i],
    ) is Some by {
        assert(Some(witnesses[i]@) == spec_input_witness(*ledger, input_records[i]));
    }
    Ok(witnesses)
}

/// Every executable of the list can be run on the local data for the record
/// at its position.
pub open spec fn spec_executables_run<X: Executable>(
    executables: Seq<X>,
    local_data: LocalData,
) -> bool {
    forall|i: int|
        0 <= i < executables.len() ==> (#[trigger] executables[i]).spec_execute(
            i as usize,
            local_data,
        ) is Some
}

/// Runs each executable on the local data, the one at a position for the
/// record at that position, or reports `ProgramExecution` where one cannot
/// be run.
pub fn run_executables<X: Executable>(executables: &Vec<X>, local_data: &LocalData) -> (r: Result<
    Vec<Execution>,
    Error,
>)
    ensures
        r is Ok <==> spec_executables_run(executables@, *local_data),
        r matches Ok(executions) ==> executions.len() == executables.len() && forall|i: int|
            0 <= i < executions.len() ==> Some(#[trigger] executions[i])
                == executables[i].spec_execute(i as usize, *local_data),
        r matches Err(e) ==> e == Error::ProgramExecution,
{
    let mut executions: Vec<Execution> = Vec::new();
    let mut index: usize = 0;
    while index < executables.len()
        invariant
            index <= executables.len(),
            executions.len() == index,
            forall|i: int|
                0 <= i < index ==> Some(#[trigger] executions[i]) == executables[i].spec_execute(
                    i as usize,
                    *local_data,
                ),
        decreases executables.len() - index,
    {
        match executables[index].execute(index, local_data) {
            Some(execution) => {
                executions.push(execution);
            },
            None => {
                return Err(Error::ProgramExecution);
            },
        }
        index += 1;
    }
    assert forall|i: int| 0 <= i < executables.len() implies (#[trigger] executables[i]).spec_execute(
        i as usize,
        *local_data,
    ) is Some by {
        assert(Some(executions[i]) == executables[i].spec_execute(i as usize, *local_data));
    }
    Ok(executions)
}

/// What a derivation comes to: its value, or `Derivation` where it has none.
pub fn derivation<T>(answer: Option<T>) -> (r: Result<T, Error>)
    ensures
        match answer {
            Some(value) => r == Ok::<T, Error>(value),
            None => r == Err::<T, Error>(Error::Derivation),
        },
{
    match answer {
        Some(value) => Ok(value),
        None => Err(Error::Derivation),
    }
}

/// What the ledger's answer on its digest comes to: the digest, or
/// `LedgerAccess` where the ledger gave none.
pub fn fetched_digest(answer: Option<Field>) -> (r: Result<Field, Error>)
    ensures
        match answer {
            Some(digest) => r == Ok::<Field, Error>(digest),
            None => r == Err::<Field, Error>(Error::LedgerAccess),
        },
{
    match answer {
        Some(digest) => Ok(digest),
        None => Err(Error::LedgerAccess),
    }
}

/// What looking up the proving key of the inner circuit comes to: the key,
/// or `MissingInnerProvingKey` where the parameters hold none.
pub fn found_inner_proving_key<K>(answer: Option<&K>) -> (r: Result<&K, Error>)
    ensures
        match answer {
            Some(key) => r == Ok::<&K, Error>(key),
            None => r == Err::<&K, Error>(Error::MissingInnerProvingKey),
        },
{
    match answer {
        Some(key) => Ok(key),
        None => Err(Error::MissingInnerProvingKey),
    }
}

/// What looking up the proving key of the outer circuit comes to: the key,
/// or `MissingOuterProvingKey` where the parameters hold none.
pub fn found_outer_proving_key<K>(answer: Option<&K>) -> (r: Result<&K, Error>)
    ensures
        match answer {
            Some(key) => r == Ok::<&K, Error>(key),
            None => r == Err::<&K, Error>(Error::MissingOuterProvingKey),
        },
{
    match answer {
        Some(key) => Ok(key),
        None => Err(Error::MissingOuterProvingKey),
    }
}

/// What the backend's answer to a request for a proof comes to: the proof,
/// or `ProofBackend` where the backend failed.
pub fn proof_made<P>(answer: Result<P, SNARKError>) -> (r: Result<P, Error>)
    ensures
        match answer {
            Ok(made) => r == Ok::<P, Error>(made),
            Err(_) => r == Err::<P, Error>(Error::ProofBackend),
        },
{
    match answer {
        Ok(made) => Ok(made),
        Err(_) => Err(Error::ProofBackend),
    }
}

/// What the verification of a proof that was just made comes to: nothing to
/// report where the backend accepts it, `InternalInconsistency` where the
/// backend refuses it, and `ProofBackend` where the backend failed.
pub fn self_verification(answer: Result<bool, SNARKError>) -> (r: Result<(), Error>)
    ensures
        r is Ok <==> answer == Ok::<bool, SNARKError>(true),
        r == Err::<(), Error>(Error::InternalInconsistency) <==> answer == Ok::<bool, SNARKError>(
            false,
        ),
        r == Err::<(), Error>(Error::ProofBackend) <==> answer is Err,
        r matches Err(e) ==> e == Error::InternalInconsistency || e == Error::ProofBackend,
{
    match answer {
        Ok(is_valid) => {
            if is_valid {
                Ok(())
            } else {
                Err(Error::InternalInconsistency)
            }
        },
        Err(_) => Err(Error::ProofBackend),
    }
}

/// Whether there is one executable for each record: `ExecutableCount` where
/// the number of executables is not that of the input and the output records
/// together.
pub fn executable_count(
    num_input_records: usize,
    num_output_records: usize,
    num_executables: usize,
) -> (r: Result<(), Error>)
    ensures
        r is Ok <==> num_executables == num_input_records + num_output_records,
        r matches Err(e) ==> e == Error::ExecutableCount,
{
    match num_input_records.checked_add(num_output_records) {
        Some(num_total_records) => {
            if num_executables != num_total_records {
                return Err(Error::ExecutableCount);
            }
            Ok(())
        },
        None => Err(Error::ExecutableCount),
    }
}

/// The encrypted records with their hashes and the randomizers of their
/// encryptions, or `Derivation` where one of them cannot be hashed.
pub fn hashed_records<C: Parameters>(
    parameters: &C,
    encrypted_records: Vec<EncryptedRecord>,
    randomizers: Vec<Scalar>,
) -> (r: Result<(Vec<EncryptedRecord>, Vec<Field>, Vec<Scalar>), Error>)
    ensures
        match spec_encrypted_record_hashes(*parameters, encrypted_record_views(encrypted_records@)) {
            Some(hashes) => r matches Ok(hashed) && hashed.0@ == encrypted_records@ && hashed.1@
                == hashes && hashed.2@ == randomizers@,
            None => r == Err::<(Vec<EncryptedRecord>, Vec<Field>, Vec<Scalar>), Error>(
                Error::Derivation,
            ),
        },
{
    match crate::variables::encrypted_record_hashes(parameters, &encrypted_records) {
        Some(hashes) => Ok((encrypted_records, hashes, randomizers)),
        None => Err(Error::Derivation),
    }
}

/// Encrypts each output record, and returns the encrypted records, their
/// hashes and the randomizers of the encryptions, or `Derivation` where a
/// record cannot be encrypted or hashed. Without a record there is nothing
/// that can fail.
pub fn encrypt_records<C: Parameters>(
    parameters: &C,
    output_records: &Vec<Record>,
    rng: &mut StdRng,
) -> (r: Result<(Vec<EncryptedRecord>, Vec<Field>, Vec<Scalar>), Error>)
    ensures
        output_records@.len() == 0 ==> r is Ok && *final(rng) == *old(rng),
        r matches Err(e) ==> e == Error::Derivation,
        r matches Ok(encrypted) ==> encrypted.0.len() == output_records.len()
            && encrypted.2.len() == output_records.len() && Some(encrypted.1@)
            == spec_encrypted_record_hashes(*parameters, encrypted_record_views(encrypted.0@)),
{
    let mut encrypted_records: Vec<EncryptedRecord> = Vec::new();
    let mut randomizers: Vec<Scalar> = Vec::new();
    let mut index: usize = 0;
    while index < output_records.len()
        invariant
            index <= output_records.len(),
            encrypted_records.len() == index,
            randomizers.len() == index,
            index == 0 ==> *rng == *old(rng),
        decreases output_records.len() - index,
    {
        match derivation(parameters.encrypt_record(&output_records[index], rng)) {
            Ok((encrypted_record, randomizer)) => {
                encrypted_records.push(encrypted_record);
                randomizers.push(randomizer);
            },
            Err(e) => {
                return Err(e);
            },
        }
        index += 1;
    }
    proof {
        if output_records@.len() == 0 {
            assert(encrypted_record_views(encrypted_records@) =~= Seq::<Seq<u8>>::empty());
        }
    }
    hashed_records(parameters, encrypted_records, randomizers)
}

/// The number of records of a transaction, inputs and outputs together.
pub open spec fn spec_num_total_records<C: Parameters>(parameters: C) -> int {
    parameters.spec_num_input_records() + parameters.spec_num_output_records()
}

/// The authorization has the shape that the parameters ask for: one serial
/// number, one input record and one signature for each input, one
/// commitment and one output record for each output, and no serial number
/// and no commitment twice.
pub open spec fn spec_well_formed_authorization<C: Parameters>(
    parameters: C,
    authorization: TransactionAuthorization,
) -> bool {
    &&& authorization.kernel@.serial_numbers.len() == parameters.spec_num_input_records()
    &&& !spec_has_duplicates(serial_number_outputs(authorization.kernel@.serial_numbers))
    &&& authorization.kernel@.commitments.len() == parameters.spec_num_output_records()
    &&& !spec_has_duplicates(authorization.kernel@.commitments)
    &&& authorization.input_records.len() == parameters.spec_num_input_records()
    &&& authorization.output_records.len() == parameters.spec_num_output_records()
    &&& authorization.signatures.len() == parameters.spec_num_input_records()
}

/// Whether the authorization has the shape that the parameters ask for:
/// `MalformedAuthorization` where it has not.
pub fn authorization_shape<C: Parameters>(
    parameters: &C,
    authorization: &TransactionAuthorization,
) -> (r: Result<(), Error>)
    ensures
        r is Ok <==> spec_well_formed_authorization(*parameters, *authorization),
        r matches Err(e) ==> e == Error::MalformedAuthorization,
{
    let num_input_records = parameters.num_input_records();
    let num_output_records = parameters.num_output_records();
    if authorization.kernel.serial_numbers.len() != num_input_records
        || authorization.kernel.commitments.len() != num_output_records
        || authorization.input_records.len() != num_input_records
        || authorization.output_records.len() != num_output_records
        || authorization.signatures.len() != num_input_records {
        return Err(Error::MalformedAuthorization);
    }
    if has_duplicate_serial_numbers(&authorization.kernel.serial_numbers) {
        return Err(Error::MalformedAuthorization);
    }
    if has_duplicate_fields(&authorization.kernel.commitments) {
        return Err(Error::MalformedAuthorization);
    }
    Ok(())
}

/// Assembles the inner circuit: its public variables are the kernel, the
/// ledger digest, the hashes of the encrypted records, the program
/// commitment and the root of the local data; its private variables are the
/// input records with their witnesses, the signatures, the output records
/// with the randomizers of their encryptions, the randomness of the program
/// commitment and the randomizers of the leaves of the local data. The
/// public variables are returned beside the circuit.
pub fn inner_circuit(
    kernel: &TransactionKernel,
    ledger_digest: &Field,
    encrypted_record_hashes: &Vec<Field>,
    program_commitment: Field,
    program_randomness: Scalar,
    local_data: &LocalData,
    input_records: Vec<Record>,
    input_witnesses: Vec<MerklePath>,
    signatures: Vec<Signature>,
    output_records: Vec<Record>,
    encrypted_record_randomizers: Vec<Scalar>,
) -> (r: (InnerPublicVariables, InnerCircuit))
    ensures
        r.0@ == (InnerPublicVariablesView {
            kernel: kernel@,
            ledger_digest: *ledger_digest,
            encrypted_record_hashes: encrypted_record_hashes@,
            program_commitment: Some(program_commitment),
            local_data_root: Some(local_data.root),
        }),
        r.1.public@ == r.0@,
        r.1.private.input_records@ == input_records@,
        r.1.private.input_witnesses@ == input_witnesses@,
        r.1.private.signatures@ == signatures@,
        r.1.private.output_records@ == output_records@,
        r.1.private.encrypted_record_randomizers@ == encrypted_record_randomizers@,
        r.1.private.program_randomness == program_randomness,
        r.1.private.local_data_leaf_randomizers@ == local_data.leaf_randomizers@,
{
    let public = InnerPublicVariables::new(
        kernel,
        ledger_digest,
        encrypted_record_hashes,
        Some(program_commitment),
        Some(local_data.root()),
    );
    let private = InnerPrivateVariables::new(
        input_records,
        input_witnesses,
        signatures,
        output_records,
        encrypted_record_randomizers,
        program_randomness,
        local_data.leaf_randomizers().clone(),
    );
    let circuit = InnerCircuit::new(public.copy(), private);
    (public, circuit)
}

/// Assembles the outer circuit: its public variables are those of the inner
/// circuit that a transaction carries, and the identifier of the inner
/// circuit; its private variables are the inner verifying key, the inner
/// proof, the executions, the program commitment with its randomness, and
/// the root of the local data. The public variables are returned beside the
/// circuit.
pub fn outer_circuit<K, P>(
    inner_public_variables: &InnerPublicVariables,
    inner_circuit_id: &Field,
    inner_verifying_key: K,
    inner_proof: P,
    executions: Vec<Execution>,
    program_commitment: Field,
    program_randomness: Scalar,
    local_data_root: Field,
) -> (r: (OuterPublicVariables, OuterCircuit<K, P>))
    ensures
        r.0@ == crate::variables::spec_outer_public_variables(
            inner_public_variables@.kernel,
            inner_public_variables@.ledger_digest,
            inner_public_variables@.encrypted_record_hashes,
            *inner_circuit_id,
        ),
        r.1.public@ == r.0@,
        r.1.private.inner_verifying_key == inner_verifying_key,
        r.1.private.inner_proof == inner_proof,
        r.1.private.executions@ == executions@,
        r.1.private.program_commitment == program_commitment,
        r.1.private.program_randomness == program_randomness,
        r.1.private.local_data_root == local_data_root,
{
    let public = OuterPublicVariables::new(inner_public_variables, inner_circuit_id);
    let private = OuterPrivateVariables::new(
        inner_verifying_key,
        inner_proof,
        executions,
        program_commitment,
        program_randomness,
        local_data_root,
    );
    let circuit = OuterCircuit::new(public.copy(), private);
    (public, circuit)
}

/// The transaction is one that an execution of the authorization against the
/// ledger hands out: the authorization has the shape that the parameters ask
/// for; the transaction carries its kernel, the ledger's current digest, the
/// identifier of the inner circuit and one encrypted record for each output
/// record; the ledger had a witness for each input record; the parameters
/// hold both proving keys; and the backend accepts the outer proof against
/// the public variables that the transaction stands for.
pub open spec fn spec_executed<C: Parameters, L: Ledger>(
    parameters: C,
    authorization: TransactionAuthorization,
    ledger: L,
    transaction: TransactionView<<C::OuterSNARK as SNARK>::Proof>,
) -> bool {
    &&& spec_well_formed_authorization(parameters, authorization)
    &&& transaction.kernel == authorization.kernel@
    &&& Some(transaction.ledger_digest) == ledger.spec_latest_digest()
    &&& transaction.inner_circuit_id == parameters.spec_inner_circuit_id()
    &&& transaction.encrypted_records.len() == authorization.output_records.len()
    &&& spec_witnesses_available(
        ledger,
        witnessed_records(authorization.input_records@, parameters.spec_num_input_records()),
    )
    &&& parameters.spec_has_inner_proving_key()
    &&& parameters.spec_has_outer_proving_key()
    &&& spec_proof_verifies(parameters, transaction)
}

/// Whether an error is one of the steps of an execution up to the fetching
/// of the ledger's digest and of the witnesses.
pub open spec fn spec_fails_by_the_ledger(e: Error) -> bool {
    e == Error::Derivation || e == Error::ProgramExecution || e == Error::LedgerAccess
}

/// Whether an error is one of the steps of an execution up to the making of
/// the inner proof.
pub open spec fn spec_fails_by_the_inner_proof(e: Error) -> bool {
    spec_fails_by_the_ledger(e) || e == Error::MissingInnerProvingKey || e == Error::ProofBackend
        || e == Error::InternalInconsistency
}

impl<C: Parameters> DPC<C> {
    /// Returns an authorization to execute a state transition.
    ///
    /// Each input slot is signed for with its own key where it holds a no-op
    /// record, else with the next of `private_keys` that no earlier slot has
    /// taken. Where `private_keys` holds too few keys nothing is signed. Where
    /// there is a slot to sign for and the kernel's message is longer than
    /// what can be signed, `Signing` is reported.
    #[verifier::loop_isolation(false)]
    pub fn authorize(
        parameters: &C,
        private_keys: &Vec<PrivateKey>,
        state: &StateTransition,
        rng: &mut StdRng,
    ) -> (r: Result<TransactionAuthorization, Error>)
        ensures
            r matches Ok(authorization) ==> spec_authorized(
                *state,
                private_keys@,
                parameters.spec_num_input_records(),
                authorization,
            ),
            r matches Err(e) ==> e == Error::MalformedAuthorization || e == Error::Signing,
            (r matches Err(e) && e == Error::MalformedAuthorization) <==> private_keys.len()
                < count_spenders(
                signing_slots(state.noop_private_keys@, parameters.spec_num_input_records()),
            ),
            private_keys.len() < count_spenders(
                signing_slots(state.noop_private_keys@, parameters.spec_num_input_records()),
            ) ==> *final(rng) == *old(rng),
            (r matches Err(e) && e == Error::Signing) <==> private_keys.len() >= count_spenders(
                signing_slots(state.noop_private_keys@, parameters.spec_num_input_records()),
            ) && signing_slots(
                state.noop_private_keys@,
                parameters.spec_num_input_records(),
            ).len() > 0 && crate::kernel::spec_signature_message(state.kernel@).len()
                > crate::account::spec_max_message_len(),
    {
        let ghost slots = signing_slots(
            state.noop_private_keys@,
            parameters.spec_num_input_records(),
        );
        // Fetch the key of each input slot.
        let keys = match resolve_keys(
            state.noop_private_keys(),
            private_keys,
            parameters.num_input_records(),
        ) {
            Ok(keys) => keys,
            Err(e) => {
                return Err(e);
            },
        };

        // Construct the signature message.
        let signature_message = state.kernel().to_signature_message();

        // Sign the transaction kernel to authorize the transaction.
        let mut signatures: Vec<Signature> = Vec::new();
        let mut index: usize = 0;
        while index < keys.len()
            invariant
                index <= keys.len(),
                signatures.len() == index,
                index > 0 ==> signature_message@.len() <= crate::account::spec_max_message_len(),
                forall|i: int|
                    0 <= i < index ==> crate::account::signed_by(
                        (#[trigger] signatures[i])@,
                        slot_key(slots, private_keys@, i)@.seed,
                        crate::network::field_values(signature_message@),
                    ),
            decreases keys.len() - index,
        {
            match keys[index].sign(&signature_message, rng) {
                Some(signature) => {
                    signatures.push(signature);
                },
                None => {
                    return Err(Error::Signing);
                },
            }
            index += 1;
        }

        // Return the transaction authorization.
        Ok(TransactionAuthorization::from(state, signatures))
    }

    /// Returns a transaction by executing an authorized state transition.
    ///
    /// The number of executables and the shape of the authorization are
    /// checked first. After that every step can fail, and with the first that
    /// does the execution ends in its error: no part of a transaction is
    /// handed out, and no later step is made. The steps, with their errors:
    /// the local data (`Derivation`), the programs (`ProgramExecution`), the
    /// program commitment and the encrypted records (`Derivation`), the
    /// ledger's digest and the witnesses (`LedgerAccess`), the inner proving
    /// key (`MissingInnerProvingKey`), the inner proof (`ProofBackend`) and
    /// its verification (`InternalInconsistency` where the backend refuses
    /// the proof it has just made, `ProofBackend` where it fails), and the
    /// same three for the outer proof.
    #[verifier::loop_isolation(false)]
    pub fn execute<L: Ledger, X: Executable>(
        parameters: &C,
        authorization: TransactionAuthorization,
        executables: &Vec<X>,
        ledger: &L,
        rng: &mut StdRng,
    ) -> (r: Result<Transaction<<C::OuterSNARK as SNARK>::Proof>, Error>)
        ensures
            r matches Ok(transaction) ==> spec_executed(
                *parameters,
                authorization,
                *ledger,
                transaction@,
            ),
            (r matches Err(e) && e == Error::ExecutableCount) <==> executables.len()
                != spec_num_total_records(*parameters),
            (r matches Err(e) && e == Error::MalformedAuthorization) <==> executables.len()
                == spec_num_total_records(*parameters) && !spec_well_formed_authorization(
                *parameters,
                authorization,
            ),
            executables.len() != spec_num_total_records(*parameters)
                || !spec_well_formed_authorization(*parameters, authorization) ==> *final(rng)
                == *old(rng),
            r matches Err(e) ==> e == Error::ExecutableCount || e == Error::MalformedAuthorization
                || spec_fails_by_the_inner_proof(e) || e == Error::MissingOuterProvingKey,
            (r matches Err(e) && e == Error::LedgerAccess) ==> ledger.spec_latest_digest() is None
                || !spec_witnesses_available(
                *ledger,
                witnessed_records(
                    authorization.input_records@,
                    parameters.spec_num_input_records(),
                ),
            ),
            (r matches Err(e) && e == Error::MissingInnerProvingKey)
                ==> !parameters.spec_has_inner_proving_key(),
            (r matches Err(e) && e == Error::MissingOuterProvingKey)
                ==> !parameters.spec_has_outer_proving_key(),
            executables.len() == spec_num_total_records(*parameters)
                && spec_well_formed_authorization(*parameters, authorization) && (
            ledger.spec_latest_digest() is None || !spec_witnesses_available(
                *ledger,
                witnessed_records(
                    authorization.input_records@,
                    parameters.spec_num_input_records(),
                ),
            )) ==> (r matches Err(e) && spec_fails_by_the_ledger(e)),
            executables.len() == spec_num_total_records(*parameters)
                && spec_well_formed_authorization(*parameters, authorization)
                && !parameters.spec_has_inner_proving_key() ==> (r matches Err(e) && (
            spec_fails_by_the_ledger(e) || e == Error::MissingInnerProvingKey)),
            executables.len() == spec_num_total_records(*parameters)
                && spec_well_formed_authorization(*parameters, authorization)
                && !parameters.spec_has_outer_proving_key() ==> (r matches Err(e) && (
            spec_fails_by_the_inner_proof(e) || e == Error::MissingOuterProvingKey)),
    {
        // There is one executable for each record.
        match executable_count(
            parameters.num_input_records(),
            parameters.num_output_records(),
            executables.len(),
        ) {
            Ok(()) => {},
            Err(e) => {
                return Err(e);
            },
        }
        // The authorization has the shape that the parameters ask for.
        match authorization_shape(parameters, &authorization) {
            Ok(()) => {},
            Err(e) => {
                return Err(e);
            },
        }

        // Generate the local data.
        let local_data = match derivation(parameters.to_local_data(&authorization, rng)) {
            Ok(local_data) => local_data,
            Err(e) => {
                return Err(e);
            },
        };

        // Execute the programs.
        let executions = match run_executables(executables, &local_data) {
            Ok(executions) => executions,
            Err(e) => {
                return Err(e);
            },
        };

        // Compute the program commitment.
        let (program_commitment, program_randomness) = match derivation(
            parameters.to_program_commitment(&authorization, rng),
        ) {
            Ok(commitment) => commitment,
            Err(e) => {
                return Err(e);
            },
        };

        // Compute the encrypted records.
        let (encrypted_records, encrypted_record_hashes, encrypted_record_randomizers) =
            match encrypt_records(parameters, &authorization.output_records, rng) {
            Ok(encrypted) => encrypted,
            Err(e) => {
                return Err(e);
            },
        };

        let TransactionAuthorization { kernel, input_records, output_records, signatures } =
            authorization;

        // Fetch the ledger's current digest.
        let ledger_digest = match fetched_digest(ledger.latest_digest()) {
            Ok(ledger_digest) => ledger_digest,
            Err(e) => {
                return Err(e);
            },
        };

        // Compute the ledger membership witnesses.
        let input_witnesses = match input_witnesses(
            ledger,
            &input_records,
            parameters.num_input_records(),
        ) {
            Ok(input_witnesses) => input_witnesses,
            Err(e) => {
                return Err(e);
            },
        };

        // Construct the inner circuit public and private variables.
        let (inner_public_variables, inner_circuit) = inner_circuit(
            &kernel,
            &ledger_digest,
            &encrypted_record_hashes,
            program_commitment,
            program_randomness,
            &local_data,
            input_records,
            input_witnesses,
            signatures,
            output_records,
            encrypted_record_randomizers,
        );

        // Compute the inner circuit proof.
        let inner_proving_key = match found_inner_proving_key(parameters.inner_proving_key()) {
            Ok(inner_proving_key) => inner_proving_key,
            Err(e) => {
                return Err(e);
            },
        };
        let inner_proof = match proof_made(
            C::InnerSNARK::prove(inner_proving_key, inner_circuit, rng),
        ) {
            Ok(inner_proof) => inner_proof,
            Err(e) => {
                return Err(e);
            },
        };

        // Verify that the inner circuit proof passes.
        let inner_verifying_key = parameters.inner_verifying_key();
        match self_verification(
            C::InnerSNARK::verify(&inner_verifying_key, &inner_public_variables, &inner_proof),
        ) {
            Ok(()) => {},
            Err(e) => {
                return Err(e);
            },
        }

        // Construct the outer circuit public and private variables.
        let inner_circuit_id = parameters.inner_circuit_id();
        let (outer_public_variables, outer_circuit) = outer_circuit(
            &inner_public_variables,
            &inner_circuit_id,
            inner_verifying_key,
            inner_proof,
            executions,
            program_commitment,
            program_randomness,
            local_data.root(),
        );

        // Compute the outer circuit proof.
        let outer_proving_key = match found_outer_proving_key(parameters.outer_proving_key()) {
            Ok(outer_proving_key) => outer_proving_key,
            Err(e) => {
                return Err(e);
            },
        };
        let outer_proof = match proof_made(
            C::OuterSNARK::prove(outer_proving_key, outer_circuit, rng),
        ) {
            Ok(outer_proof) => outer_proof,
            Err(e) => {
                return Err(e);
            },
        };

        // Verify that the outer circuit proof passes.
        match self_verification(
            C::OuterSNARK::verify(
                parameters.outer_verifying_key(),
                &outer_public_variables,
                &outer_proof,
            ),
        ) {
            Ok(()) => {},
            Err(e) => {
                return Err(e);
            },
        }

        Ok(
            Transaction::from(
                kernel,
                ledger_digest,
                inner_circuit_id,
                encrypted_records,
                outer_proof,
            ),
        )
    }

    /// Returns the verdict on a transaction against a ledger: acceptance, or
    /// the first check that fails. The checks are made in order, the cheap
    /// ones first, and none is made after one that fails.
    #[verifier::loop_isolation(false)]
    pub fn validate<L: Ledger>(
        parameters: &C,
        transaction: &Transaction<<C::OuterSNARK as SNARK>::Proof>,
        ledger: &L,
    ) -> (r: Verdict)
        ensures
            r == spec_validate(*parameters, transaction@, *ledger),
    {
        let serial_numbers = transaction.serial_numbers();
        let commitments = transaction.commitments();

        // The number of serial numbers is that of the input records.
        if serial_numbers.len() != parameters.num_input_records() {
            return Verdict::Rejected(Check::SerialNumberCount);
        }
        // No serial number stands twice in the transaction.
        if has_duplicate_serial_numbers(serial_numbers) {
            return Verdict::Rejected(Check::DuplicateSerialNumbers);
        }
        // The number of commitments is that of the output records.
        if commitments.len() != parameters.num_output_records() {
            return Verdict::Rejected(Check::CommitmentCount);
        }
        // No commitment stands twice in the transaction.
        if has_duplicate_fields(commitments) {
            return Verdict::Rejected(Check::DuplicateCommitments);
        }

        // No serial number is in the ledger yet.
        let mut index: usize = 0;
        while index < serial_numbers.len()
            invariant
                index <= serial_numbers.len(),
                forall|i: int|
                    0 <= i < index ==> !ledger.spec_contains_serial_number(
                        (#[trigger] serial_numbers[i]).spec_output(),
                    ),
            decreases serial_numbers.len() - index,
        {
            if ledger.contains_serial_number(&serial_numbers[index]) {
                return Verdict::Rejected(Check::SerialNumberInLedger);
            }
            index += 1;
        }

        // No commitment is in the ledger yet.
        let mut index: usize = 0;
        while index < commitments.len()
            invariant
                index <= commitments.len(),
                forall|i: int|
                    0 <= i < index ==> !ledger.spec_contains_commitment(#[trigger] commitments[i]),
            decreases commitments.len() - index,
        {
            if ledger.contains_commitment(&commitments[index]) {
                return Verdict::Rejected(Check::CommitmentInLedger);
            }
            index += 1;
        }

        // The ledger recognizes the digest.
        if !ledger.is_valid_digest(&transaction.ledger_digest) {
            return Verdict::Rejected(Check::LedgerDigest);
        }
        // The number of encrypted records is that of the output records.
        if transaction.encrypted_records().len() != parameters.num_output_records() {
            return Verdict::Rejected(Check::EncryptedRecordCount);
        }
        // The public variables of the outer circuit can be reconstructed.
        let outer_public_variables = match OuterPublicVariables::from(parameters, transaction) {
            Some(outer_public_variables) => outer_public_variables,
            None => {
                return Verdict::Rejected(Check::PublicVariables);
            },
        };
        // The backend accepts the outer proof.
        match C::OuterSNARK::verify(
            parameters.outer_verifying_key(),
            &outer_public_variables,
            &transaction.proof,
        ) {
            Ok(is_valid) => {
                if !is_valid {
                    return Verdict::Rejected(Check::Proof);
                }
            },
            Err(_) => {
                return Verdict::Rejected(Check::Proof);
            },
        }
        Verdict::Accepted
    }

    /// Returns whether the transaction is valid according to the ledger.
    pub fn verify<L: Ledger>(
        parameters: &C,
        transaction: &Transaction<<C::OuterSNARK as SNARK>::Proof>,
        ledger: &L,
    ) -> (r: bool)
        ensures
            r == spec_verify(*parameters, transaction@, *ledger),
    {
        match Self::validate(parameters, transaction, ledger) {
            Verdict::Accepted => true,
            Verdict::Rejected(_) => false,
        }
    }

    /// Returns the verdict on each transaction of the list, each against the
    /// ledger alone: what the transactions of one list do to one another is
    /// not looked at.
    pub fn validate_transactions<L: Ledger>(
        parameters: &C,
        transactions: &Vec<Transaction<<C::OuterSNARK as SNARK>::Proof>>,
        ledger: &L,
    ) -> (r: Vec<Verdict>)
        ensures
            r@ == spec_validate_transactions(*parameters, transactions@, *ledger),
    {
        let mut verdicts: Vec<Verdict> = Vec::new();
        let mut index: usize = 0;
        while index < transactions.len()
            invariant
                index <= transactions.len(),
                verdicts@ == spec_validate_transactions(
                    *parameters,
                    transactions@.take(index as int),
                    *ledger,
                ),
            decreases transactions.len() - index,
        {
            verdicts.push(Self::validate(parameters, &transactions[index], ledger));
            assert(spec_validate_transactions(
                *parameters,
                transactions@.take(index + 1),
                *ledger,
            ) =~= spec_validate_transactions(
                *parameters,
                transactions@.take(index as int),
                *ledger,
            ).push(spec_validate(*parameters, transactions[index as int]@, *ledger)));
            index += 1;
        }
        assert(transactions@.take(index as int) =~= transactions@);
        verdicts
    }

    /// Returns true iff all the transactions are valid according to the
    /// ledger.
    pub fn verify_transactions<L: Ledger>(
        parameters: &C,
        transactions: &Vec<Transaction<<C::OuterSNARK as SNARK>::Proof>>,
        ledger: &L,
    ) -> (r: bool)
        ensures
            r == spec_verify_transactions(*parameters, transactions@, *ledger),
    {
        let verdicts = Self::validate_transactions(parameters, transactions, ledger);
        proof {
            if all_accepted(verdicts@) {
                assert forall|i: int| 0 <= i < transactions.len() implies spec_verify(
                    *parameters,
                    (#[trigger] transactions[i])@,
                    *ledger,
                ) by {
                    assert(verdicts[i] == Verdict::Accepted);
                }
            }
        }
        all_verdicts_accepted(&verdicts)
    }
}

/// The state transition is valid for the parameters and new to the ledger: it
/// has one serial number for each input record and one commitment and one
/// record for each output record, none of them twice, and the ledger holds
/// none of them yet.
pub open spec fn spec_valid_transition<C: Parameters, L: Ledger>(
    parameters: C,
    state: StateTransition,
    ledger: L,
) -> bool {
    &&& state.kernel@.serial_numbers.len() == parameters.spec_num_input_records()
    &&& !spec_has_duplicates(serial_number_outputs(state.kernel@.serial_numbers))
    &&& state.kernel@.commitments.len() == parameters.spec_num_output_records()
    &&& !spec_has_duplicates(state.kernel@.commitments)
    &&& state.output_records.len() == parameters.spec_num_output_records()
    &&& !spent_in_ledger(ledger, state.kernel@.serial_numbers)
    &&& !created_in_ledger(ledger, state.kernel@.commitments)
}

/// The first four checks pass: the transaction has the right numbers of
/// serial numbers and of commitments, and none of them twice.
pub open spec fn spec_well_formed<C: Parameters>(
    parameters: C,
    transaction: TransactionView<<C::OuterSNARK as SNARK>::Proof>,
) -> bool {
    &&& transaction.kernel.serial_numbers.len() == parameters.spec_num_input_records()
    &&& !spec_has_duplicates(serial_number_outputs(transaction.kernel.serial_numbers))
    &&& transaction.kernel.commitments.len() == parameters.spec_num_output_records()
    &&& !spec_has_duplicates(transaction.kernel.commitments)
}

/// A valid state transition that is authorized and then executed yields a
/// transaction that is accepted against the ledger it was built on.
pub proof fn authorized_execution_is_accepted<C: Parameters, L: Ledger>(
    parameters: C,
    state: StateTransition,
    private_keys: Seq<PrivateKey>,
    authorization: TransactionAuthorization,
    ledger: L,
    transaction: TransactionView<<C::OuterSNARK as SNARK>::Proof>,
)
    requires
        spec_valid_transition(parameters, state, ledger),
        spec_authorized(state, private_keys, parameters.spec_num_input_records(), authorization),
        spec_executed(parameters, authorization, ledger, transaction),
    ensures
        spec_verify(parameters, transaction, ledger),
{
    ledger.current_digest_is_recognized();
}

/// A transaction that spends a serial number which the ledger has recorded
/// is rejected for it, whatever its proof, once it has the right numbers of
/// serial numbers and commitments and none of them twice.
pub proof fn replayed_serial_number_is_rejected<C: Parameters, L: Ledger>(
    parameters: C,
    transaction: TransactionView<<C::OuterSNARK as SNARK>::Proof>,
    ledger: L,
)
    requires
        spec_well_formed(parameters, transaction),
        spent_in_ledger(ledger, transaction.kernel.serial_numbers),
    ensures
        spec_validate(parameters, transaction, ledger) == Verdict::Rejected(
            Check::SerialNumberInLedger,
        ),
        !spec_verify(parameters, transaction, ledger),
{
}

/// A transaction that creates a commitment which the ledger has recorded is
/// rejected, whatever its proof: for the commitment, unless an earlier check
/// fails already.
pub proof fn recreated_commitment_is_rejected<C: Parameters, L: Ledger>(
    parameters: C,
    transaction: TransactionView<<C::OuterSNARK as SNARK>::Proof>,
    ledger: L,
)
    requires
        created_in_ledger(ledger, transaction.kernel.commitments),
    ensures
        !spec_verify(parameters, transaction, ledger),
        spec_well_formed(parameters, transaction) && !spent_in_ledger(
            ledger,
            transaction.kernel.serial_numbers,
        ) ==> spec_validate(parameters, transaction, ledger) == Verdict::Rejected(
            Check::CommitmentInLedger,
        ),
{
}

/// A transaction that an execution hands out has the shape that every
/// transaction has: one serial number for each input record, one commitment
/// and one encrypted record for each output record, and no serial number and
/// no commitment twice.
pub proof fn executed_transaction_has_its_shape<C: Parameters, L: Ledger>(
    parameters: C,
    authorization: TransactionAuthorization,
    ledger: L,
    transaction: TransactionView<<C::OuterSNARK as SNARK>::Proof>,
)
    requires
        spec_executed(parameters, authorization, ledger, transaction),
    ensures
        spec_well_formed(parameters, transaction),
        transaction.encrypted_records.len() == parameters.spec_num_output_records(),
{
}

/// A transaction that is accepted carries one serial number for each input
/// record and one commitment and one encrypted record for each output
/// record, none of the serial numbers and none of the commitments twice, and
/// none that the ledger has recorded; the ledger recognizes its digest, and
/// the backend accepts its proof.
pub proof fn accepted_transaction_is_sound<C: Parameters, L: Ledger>(
    parameters: C,
    transaction: TransactionView<<C::OuterSNARK as SNARK>::Proof>,
    ledger: L,
)
    requires
        spec_verify(parameters, transaction, ledger),
    ensures
        spec_well_formed(parameters, transaction),
        transaction.encrypted_records.len() == parameters.spec_num_output_records(),
        !spent_in_ledger(ledger, transaction.kernel.serial_numbers),
        !created_in_ledger(ledger, transaction.kernel.commitments),
        ledger.spec_is_valid_digest(transaction.ledger_digest),
        spec_proof_verifies(parameters, transaction),
{
}

/// A transaction with the right number of serial numbers, two of which are
/// the same or have the same output, is rejected for the duplicate, whatever
/// its proof.
pub proof fn duplicate_serial_number_is_rejected<C: Parameters, L: Ledger>(
    parameters: C,
    transaction: TransactionView<<C::OuterSNARK as SNARK>::Proof>,
    ledger: L,
    first: int,
    second: int,
)
    requires
        transaction.kernel.serial_numbers.len() == parameters.spec_num_input_records(),
        0 <= first < second < transaction.kernel.serial_numbers.len(),
        transaction.kernel.serial_numbers[first].spec_output()
            == transaction.kernel.serial_numbers[second].spec_output(),
    ensures
        spec_validate(parameters, transaction, ledger) == Verdict::Rejected(
            Check::DuplicateSerialNumbers,
        ),
        !spec_verify(parameters, transaction, ledger),
{
    let outputs = serial_number_outputs(transaction.kernel.serial_numbers);
    assert(outputs[first] == outputs[second]);
}

/// Of a transaction that passes the checks before it, the check of the
/// ledger digest asks only whether the ledger recognizes the digest, not
/// whether it is the current one: a recognized digest passes, and the later
/// checks decide; any other digest is rejected.
pub proof fn recognized_digest_is_accepted<C: Parameters, L: Ledger>(
    parameters: C,
    transaction: TransactionView<<C::OuterSNARK as SNARK>::Proof>,
    ledger: L,
)
    requires
        spec_well_formed(parameters, transaction),
        !spent_in_ledger(ledger, transaction.kernel.serial_numbers),
        !created_in_ledger(ledger, transaction.kernel.commitments),
    ensures
        !ledger.spec_is_valid_digest(transaction.ledger_digest) <==> spec_validate(
            parameters,
            transaction,
            ledger,
        ) == Verdict::Rejected(Check::LedgerDigest),
        ledger.spec_is_valid_digest(transaction.ledger_digest) ==> (spec_verify(
            parameters,
            transaction,
            ledger,
        ) <==> transaction.encrypted_records.len() == parameters.spec_num_output_records()
            && spec_proof_verifies(parameters, transaction)),
{
}

/// The verdict on a list of transactions is the same in whatever order the
/// transactions stand.
pub proof fn verify_transactions_ignores_order<C: Parameters, L: Ledger>(
    parameters: C,
    transactions: Seq<Transaction<<C::OuterSNARK as SNARK>::Proof>>,
    reordered: Seq<Transaction<<C::OuterSNARK as SNARK>::Proof>>,
    ledger: L,
)
    requires
        transactions.to_multiset() == reordered.to_multiset(),
    ensures
        spec_verify_transactions(parameters, transactions, ledger) == spec_verify_transactions(
            parameters,
            reordered,
            ledger,
        ),
{
    all_of_a_list_holds_of_its_reorderings(parameters, transactions, reordered, ledger);
    all_of_a_list_holds_of_its_reorderings(parameters, reordered, transactions, ledger);
}

/// Where every transaction of a list is accepted, so is every transaction of
/// a list with the same members.
proof fn all_of_a_list_holds_of_its_reorderings<C: Parameters, L: Ledger>(
    parameters: C,
    transactions: Seq<Transaction<<C::OuterSNARK as SNARK>::Proof>>,
    reordered: Seq<Transaction<<C::OuterSNARK as SNARK>::Proof>>,
    ledger: L,
)
    requires
        transactions.to_multiset() == reordered.to_multiset(),
    ensures
        spec_verify_transactions(parameters, transactions, ledger) ==> spec_verify_transactions(
            parameters,
            reordered,
            ledger,
        ),
{
    if spec_verify_transactions(parameters, transactions, ledger) {
        assert forall|i: int| 0 <= i < reordered.len() implies spec_verify(
            parameters,
            (#[trigger] reordered[i])@,
            ledger,
        ) by {
            vstd::seq_lib::to_multiset_contains(reordered, reordered[i]);
            vstd::seq_lib::to_multiset_contains(transactions, reordered[i]);
            assert(reordered.contains(reordered[i]));
            assert(transactions.contains(reordered[i]));
            let j = choose|j: int| 0 <= j < transactions.len() && transactions[j] == reordered[i];
            assert(spec_verify(parameters, transactions[j]@, ledger));
        }
    }
}

/// The verdict on a list of transactions is the conjunction of the verdicts
/// on its transactions one by one: two transactions that are each accepted
/// are accepted together, whatever they do to one another.
pub proof fn verify_transactions_is_the_conjunction<C: Parameters, L: Ledger>(
    parameters: C,
    first: Transaction<<C::OuterSNARK as SNARK>::Proof>,
    second: Transaction<<C::OuterSNARK as SNARK>::Proof>,
    ledger: L,
)
    ensures
        spec_verify_transactions(parameters, seq![first, second], ledger) == (spec_verify(
            parameters,
            first@,
            ledger,
        ) && spec_verify(parameters, second@, ledger)),
{
    let both = seq![first, second];
    assert(both[0] == first);
    assert(both[1] == second);
}

} // verus!
