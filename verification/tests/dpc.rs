use dpc_core::account::{Address, PrivateKey, Signature};
use dpc_core::dpc::{Check, Verdict, DPC};
use dpc_core::error::Error;
use dpc_core::field::{Field, Group, Scalar};
use dpc_core::kernel::TransactionKernel;
use dpc_core::ledger::{Ledger, MerklePath, MerklePathView};
use dpc_core::parameters::{Executable, Parameters};
use dpc_core::record::{EncryptedRecord, EncryptedRecordView, Execution, LocalData, Record};
use dpc_core::serial_number::SerialNumber;
use dpc_core::snark::SNARK;
use dpc_core::transaction::Transaction;
use dpc_core::transition::{StateTransition, TransactionAuthorization};
use dpc_core::wire::{encode_list, Wire};
use dpc_core::variables::{
    InnerCircuit, InnerPublicVariables, InnerPublicVariablesView, OuterCircuit,
    OuterPublicVariables, OuterPublicVariablesView,
};
use rand::rngs::StdRng;
use rand::{RngCore, SeedableRng};
use snarkvm_algorithms::SNARKError;
use std::collections::hash_map::DefaultHasher;
use std::hash::{Hash, Hasher};

fn digest<T: Hash>(value: &T) -> u64 {
    let mut hasher = DefaultHasher::new();
    value.hash(&mut hasher);
    hasher.finish()
}

/// A backend whose proof is a keyed digest of the public variables. A proving
/// key of zero makes proving fail; a verifying key of zero makes verifying
/// fail.
struct InnerBackend;

impl SNARK for InnerBackend {
    type AssignedCircuit = InnerCircuit;
    type Circuit = ();
    type Proof = u64;
    type PreparedVerificationParameters = u64;
    type ProvingParameters = u64;
    type VerificationParameters = u64;
    type VerifierInput = InnerPublicVariables;

    fn spec_verify(_: u64, _: InnerPublicVariablesView, _: u64) -> Result<bool, SNARKError> {
        unreachable!()
    }

    fn setup(_: (), rng: &mut StdRng) -> Result<(u64, u64), SNARKError> {
        let key = rng.next_u64() | 1;
        Ok((key, key))
    }

    fn prove(key: &u64, circuit: InnerCircuit, rng: &mut StdRng) -> Result<u64, SNARKError> {
        let _ = rng.next_u64();
        if *key == 0 {
            return Err(SNARKError::Message("no proof".to_string()));
        }
        Ok(digest(&circuit.public) ^ *key)
    }

    fn verify(key: &u64, input: &InnerPublicVariables, proof: &u64) -> Result<bool, SNARKError> {
        if *key == 0 {
            return Err(SNARKError::Message("no verdict".to_string()));
        }
        Ok(digest(input) ^ *key == *proof)
    }
}

struct OuterBackend;

impl SNARK for OuterBackend {
    type AssignedCircuit = OuterCircuit<u64, u64>;
    type Circuit = ();
    type Proof = u64;
    type PreparedVerificationParameters = u64;
    type ProvingParameters = u64;
    type VerificationParameters = u64;
    type VerifierInput = OuterPublicVariables;

    fn spec_verify(_: u64, _: OuterPublicVariablesView, _: u64) -> Result<bool, SNARKError> {
        unreachable!()
    }

    fn setup(_: (), rng: &mut StdRng) -> Result<(u64, u64), SNARKError> {
        let key = rng.next_u64() | 1;
        Ok((key, key))
    }

    fn prove(
        key: &u64,
        circuit: OuterCircuit<u64, u64>,
        rng: &mut StdRng,
    ) -> Result<u64, SNARKError> {
        let _ = rng.next_u64();
        if *key == 0 {
            return Err(SNARKError::Message("no proof".to_string()));
        }
        Ok(digest(&circuit.public) ^ *key)
    }

    fn verify(key: &u64, input: &OuterPublicVariables, proof: &u64) -> Result<bool, SNARKError> {
        if *key == 0 {
            return Err(SNARKError::Message("no verdict".to_string()));
        }
        Ok(digest(input) ^ *key == *proof)
    }
}

#[derive(Clone)]
struct TestParameters {
    inputs: usize,
    outputs: usize,
    inner_proving_key: Option<u64>,
    inner_verifying_key: u64,
    outer_proving_key: Option<u64>,
    outer_verifying_key: u64,
    fail_local_data: bool,
    fail_program_commitment: bool,
    fail_encryption: bool,
    fail_hash: bool,
}

impl TestParameters {
    fn new(inputs: usize, outputs: usize) -> Self {
        TestParameters {
            inputs,
            outputs,
            inner_proving_key: Some(11),
            inner_verifying_key: 11,
            outer_proving_key: Some(13),
            outer_verifying_key: 13,
            fail_local_data: false,
            fail_program_commitment: false,
            fail_encryption: false,
            fail_hash: false,
        }
    }
}

impl Parameters for TestParameters {
    type InnerSNARK = InnerBackend;
    type OuterSNARK = OuterBackend;

    fn spec_num_input_records(&self) -> usize {
        unreachable!()
    }

    fn spec_num_output_records(&self) -> usize {
        unreachable!()
    }

    fn spec_inner_circuit_id(&self) -> Field {
        unreachable!()
    }

    fn spec_inner_verifying_key(&self) -> u64 {
        unreachable!()
    }

    fn spec_outer_verifying_key(&self) -> u64 {
        unreachable!()
    }

    fn spec_has_inner_proving_key(&self) -> bool {
        unreachable!()
    }

    fn spec_has_outer_proving_key(&self) -> bool {
        unreachable!()
    }

    fn spec_encrypted_record_hash(&self, _: EncryptedRecordView) -> Option<Field> {
        unreachable!()
    }

    fn num_input_records(&self) -> usize {
        self.inputs
    }

    fn num_output_records(&self) -> usize {
        self.outputs
    }

    fn inner_circuit_id(&self) -> Field {
        Field::from_u64(4242)
    }

    fn inner_proving_key(&self) -> Option<&u64> {
        self.inner_proving_key.as_ref()
    }

    fn inner_verifying_key(&self) -> u64 {
        self.inner_verifying_key
    }

    fn outer_proving_key(&self) -> Option<&u64> {
        self.outer_proving_key.as_ref()
    }

    fn outer_verifying_key(&self) -> &u64 {
        &self.outer_verifying_key
    }

    fn to_local_data(
        &self,
        authorization: &TransactionAuthorization,
        rng: &mut StdRng,
    ) -> Option<LocalData> {
        if self.fail_local_data {
            return None;
        }
        let leaves = authorization.input_records.len() + authorization.output_records.len();
        let leaf_randomizers =
            (0..leaves).map(|_| Scalar::from_limbs([rng.next_u64(), 0, 0, 0]).unwrap()).collect();
        Some(LocalData { root: Field::from_u64(digest(&authorization.kernel)), leaf_randomizers })
    }

    fn to_program_commitment(
        &self,
        authorization: &TransactionAuthorization,
        rng: &mut StdRng,
    ) -> Option<(Field, Scalar)> {
        if self.fail_program_commitment {
            return None;
        }
        let randomness = Scalar::from_limbs([rng.next_u64(), 0, 0, 0]).unwrap();
        Some((Field::from_u64(digest(&(&authorization.output_records, randomness))), randomness))
    }

    fn encrypt_record(&self, record: &Record, rng: &mut StdRng) -> Option<(EncryptedRecord, Scalar)> {
        if self.fail_encryption {
            return None;
        }
        let randomizer = rng.next_u64();
        let mut bytes = record.payload.to_vec();
        bytes.extend_from_slice(&(record.value ^ randomizer).to_le_bytes());
        Some((EncryptedRecord { bytes }, Scalar::from_limbs([randomizer, 0, 0, 0]).unwrap()))
    }

    fn encrypted_record_hash(&self, record: &EncryptedRecord) -> Option<Field> {
        if self.fail_hash {
            return None;
        }
        Some(Field::from_u64(digest(&record.bytes)))
    }
}

struct Program {
    fails: bool,
}

impl Executable for Program {
    fn spec_execute(&self, _: usize, _: LocalData) -> Option<Execution> {
        unreachable!()
    }

    fn execute(&self, index: usize, local_data: &LocalData) -> Option<Execution> {
        if self.fails {
            return None;
        }
        Some(Execution { index, program_id: local_data.root, proof: vec![index as u8] })
    }
}

fn programs(count: usize) -> Vec<Program> {
    (0..count).map(|_| Program { fails: false }).collect()
}

#[derive(Default)]
struct TestLedger {
    serial_numbers: Vec<SerialNumber>,
    commitments: Vec<Field>,
    digests: Vec<Field>,
    latest: Option<Field>,
    fail_witness: bool,
}

impl TestLedger {
    fn empty() -> Self {
        let genesis = Field::from_u64(1);
        TestLedger { digests: vec![genesis], latest: Some(genesis), ..Default::default() }
    }
}

impl Ledger for TestLedger {
    fn spec_latest_digest(&self) -> Option<Field> {
        unreachable!()
    }

    fn spec_is_valid_digest(&self, _: Field) -> bool {
        unreachable!()
    }

    fn spec_contains_serial_number(&self, _: Scalar) -> bool {
        unreachable!()
    }

    fn current_digest_is_recognized(&self) {
        unreachable!()
    }

    fn spec_contains_commitment(&self, _: Field) -> bool {
        unreachable!()
    }

    fn spec_prove_cm(&self, _: Field) -> Option<MerklePathView> {
        unreachable!()
    }

    fn latest_digest(&self) -> Option<Field> {
        self.latest
    }

    fn is_valid_digest(&self, digest: &Field) -> bool {
        self.digests.contains(digest)
    }

    fn contains_serial_number(&self, serial_number: &SerialNumber) -> bool {
        self.serial_numbers.iter().any(|recorded| recorded.output() == serial_number.output())
    }

    fn contains_commitment(&self, commitment: &Field) -> bool {
        self.commitments.contains(commitment)
    }

    fn prove_cm(&self, commitment: &Field) -> Option<MerklePath> {
        if self.fail_witness {
            return None;
        }
        self.commitments
            .iter()
            .position(|c| c == commitment)
            .map(|index| MerklePath { path: vec![*commitment], leaf_index: index as u64 })
    }
}

fn key(seed: u64) -> PrivateKey {
    PrivateKey::new(Field::from_u64(seed), Scalar::from_limbs([seed + 1, 0, 0, 0]).unwrap())
}

fn serial_number(seed: u64) -> SerialNumber {
    let sk = Scalar::from_limbs([seed, 0, 0, 0]).unwrap();
    let randomizer = Scalar::from_limbs([seed + 100, 0, 0, 0]).unwrap();
    SerialNumber::prove(&sk, Field::from_u64(seed), randomizer).unwrap()
}

fn record(owner: &PrivateKey, is_dummy: bool, value: u64, commitment: u64) -> Record {
    Record::new(
        owner.to_address().unwrap(),
        is_dummy,
        value,
        [value as u8; 32],
        Field::from_u64(0),
        Field::from_u64(commitment),
    )
}

/// A transition that creates two records out of two no-op inputs: no key of
/// a spender is needed.
fn coinbase(recipient: &PrivateKey, amount: u64) -> StateTransition {
    let noop_keys = vec![key(1000), key(1001)];
    let inputs = vec![record(&noop_keys[0], true, 0, 500), record(&noop_keys[1], true, 0, 501)];
    let outputs = vec![record(recipient, false, amount, 600), record(&noop_keys[0], true, 0, 601)];
    let kernel = TransactionKernel::new(
        vec![serial_number(21), serial_number(22)],
        vec![Field::from_u64(600), Field::from_u64(601)],
        0,
        vec![7, 7, 7],
    );
    StateTransition::new(kernel, inputs, outputs, noop_keys.into_iter().map(Some).collect())
}

fn build(parameters: &TestParameters, ledger: &TestLedger, seed: u64) -> Transaction<u64> {
    let mut rng = StdRng::seed_from_u64(seed);
    let state = coinbase(&key(5), 10);
    let authorization = DPC::<TestParameters>::authorize(parameters, &vec![], &state, &mut rng).unwrap();
    DPC::<TestParameters>::execute(parameters, authorization, &programs(4), ledger, &mut rng).unwrap()
}

#[test]
fn coinbase_is_authorized_executed_and_accepted() {
    let parameters = TestParameters::new(2, 2);
    let ledger = TestLedger::empty();
    let mut rng = StdRng::seed_from_u64(1231275789u64);
    let state = coinbase(&key(5), 10);
    let authorization =
        DPC::<TestParameters>::authorize(&parameters, &vec![], &state, &mut rng).unwrap();
    assert_eq!(authorization.signatures.len(), 2);
    let transaction =
        DPC::<TestParameters>::execute(&parameters, authorization, &programs(4), &ledger, &mut rng)
            .unwrap();
    assert_eq!(transaction.kernel, state.kernel);
    assert_eq!(Some(transaction.ledger_digest), ledger.latest);
    assert_eq!(transaction.inner_circuit_id, Field::from_u64(4242));
    assert_eq!(transaction.encrypted_records.len(), 2);
    assert_eq!(DPC::<TestParameters>::validate(&parameters, &transaction, &ledger), Verdict::Accepted);
    assert!(DPC::<TestParameters>::verify(&parameters, &transaction, &ledger));
}

#[test]
fn flipped_commitment_is_rejected() {
    let parameters = TestParameters::new(2, 2);
    let ledger = TestLedger::empty();
    let mut transaction = build(&parameters, &ledger, 1);
    assert!(DPC::<TestParameters>::verify(&parameters, &transaction, &ledger));
    let mut limbs = transaction.kernel.commitments[0].limbs();
    // Flip the second byte of the commitment.
    limbs[0] ^= 0xff00;
    transaction.kernel.commitments[0] = Field::from_limbs(limbs).unwrap();
    assert_eq!(
        DPC::<TestParameters>::validate(&parameters, &transaction, &ledger),
        Verdict::Rejected(Check::Proof)
    );
    assert!(!DPC::<TestParameters>::verify(&parameters, &transaction, &ledger));
}

#[test]
fn replayed_serial_number_is_rejected_whatever_the_proof() {
    let parameters = TestParameters::new(2, 2);
    let mut ledger = TestLedger::empty();
    let mut transaction = build(&parameters, &ledger, 2);
    assert!(DPC::<TestParameters>::verify(&parameters, &transaction, &ledger));
    ledger.serial_numbers.push(transaction.kernel.serial_numbers[1]);
    assert_eq!(
        DPC::<TestParameters>::validate(&parameters, &transaction, &ledger),
        Verdict::Rejected(Check::SerialNumberInLedger)
    );
    transaction.proof ^= 1;
    assert_eq!(
        DPC::<TestParameters>::validate(&parameters, &transaction, &ledger),
        Verdict::Rejected(Check::SerialNumberInLedger)
    );
}

/// Makes the outer proof of a transaction anew, as the backend of the tests
/// makes it, so that the proof is valid for what the transaction now holds.
fn reprove(parameters: &TestParameters, transaction: &mut Transaction<u64>) {
    let public = OuterPublicVariables::from(parameters, transaction).unwrap();
    transaction.proof = digest(&public) ^ parameters.outer_verifying_key;
}

#[test]
fn duplicate_serial_numbers_are_rejected_even_with_a_valid_proof() {
    let parameters = TestParameters::new(2, 2);
    let ledger = TestLedger::empty();
    let mut transaction = build(&parameters, &ledger, 3);
    // Another serial number in the second slot, with a proof made anew: the
    // transaction is accepted.
    transaction.kernel.serial_numbers[1] = serial_number(23);
    reprove(&parameters, &mut transaction);
    assert_eq!(DPC::<TestParameters>::validate(&parameters, &transaction, &ledger), Verdict::Accepted);
    // The first serial number in the second slot too, with a proof made
    // anew: the proof is as valid, and the transaction is rejected.
    transaction.kernel.serial_numbers[1] = transaction.kernel.serial_numbers[0];
    reprove(&parameters, &mut transaction);
    assert_eq!(
        DPC::<TestParameters>::validate(&parameters, &transaction, &ledger),
        Verdict::Rejected(Check::DuplicateSerialNumbers)
    );
}

#[test]
fn serial_number_with_another_proof_is_the_same_serial_number() {
    let parameters = TestParameters::new(2, 2);
    let ledger = TestLedger::empty();
    let mut transaction = build(&parameters, &ledger, 19);
    // The second input spends the record of the first again, with a proof
    // made from another randomizer.
    let sk = Scalar::from_limbs([21, 0, 0, 0]).unwrap();
    let again =
        SerialNumber::prove(&sk, Field::from_u64(21), Scalar::from_limbs([5, 0, 0, 0]).unwrap()).unwrap();
    assert_ne!(again, transaction.kernel.serial_numbers[0]);
    assert_eq!(again.output(), transaction.kernel.serial_numbers[0].output());
    transaction.kernel.serial_numbers[1] = again;
    reprove(&parameters, &mut transaction);
    assert_eq!(
        DPC::<TestParameters>::validate(&parameters, &transaction, &ledger),
        Verdict::Rejected(Check::DuplicateSerialNumbers)
    );

    // And a ledger that has recorded the serial number finds it under the
    // other proof.
    let mut recorded = TestLedger::empty();
    recorded.serial_numbers.push(again);
    let spent = build(&parameters, &ledger, 20);
    assert_eq!(
        DPC::<TestParameters>::validate(&parameters, &spent, &recorded),
        Verdict::Rejected(Check::SerialNumberInLedger)
    );
}

#[test]
fn execute_refuses_an_authorization_of_another_shape() {
    let parameters = TestParameters::new(2, 2);
    let ledger = TestLedger::empty();
    let state = coinbase(&key(5), 10);
    let mut rng = StdRng::seed_from_u64(24);
    let good = DPC::<TestParameters>::authorize(&parameters, &vec![], &state, &mut rng).unwrap();
    assert_eq!(dpc_core::dpc::authorization_shape(&parameters, &good), Ok(()));

    let refused = |authorization: TransactionAuthorization| {
        let mut rng = StdRng::seed_from_u64(25);
        let mut untouched = StdRng::seed_from_u64(25);
        assert_eq!(
            dpc_core::dpc::authorization_shape(&parameters, &authorization),
            Err(Error::MalformedAuthorization)
        );
        assert_eq!(
            DPC::<TestParameters>::execute(&parameters, authorization, &programs(4), &ledger, &mut rng),
            Err(Error::MalformedAuthorization)
        );
        // Nothing was derived.
        assert_eq!(rng.next_u64(), untouched.next_u64());
    };

    let mut authorization = good.clone();
    authorization.kernel.serial_numbers[1] = authorization.kernel.serial_numbers[0];
    refused(authorization);
    let mut authorization = good.clone();
    authorization.kernel.commitments[1] = authorization.kernel.commitments[0];
    refused(authorization);
    let mut authorization = good.clone();
    authorization.kernel.serial_numbers.pop();
    refused(authorization);
    let mut authorization = good.clone();
    authorization.kernel.commitments.push(Field::from_u64(9));
    refused(authorization);
    let mut authorization = good.clone();
    authorization.input_records.pop();
    refused(authorization);
    let mut authorization = good.clone();
    authorization.output_records.push(authorization.output_records[0]);
    refused(authorization);
    let mut authorization = good.clone();
    authorization.signatures.pop();
    refused(authorization);

    // The number of executables is looked at first.
    let mut authorization = good.clone();
    authorization.signatures.pop();
    assert_eq!(
        DPC::<TestParameters>::execute(&parameters, authorization, &programs(3), &ledger, &mut rng),
        Err(Error::ExecutableCount)
    );
    // An execution that succeeds hands out a transaction of the right shape.
    let transaction =
        DPC::<TestParameters>::execute(&parameters, good, &programs(4), &ledger, &mut rng).unwrap();
    assert_eq!(transaction.serial_numbers().len(), 2);
    assert_eq!(transaction.commitments().len(), 2);
    assert_eq!(transaction.encrypted_records().len(), 2);
}

#[test]
fn each_outside_answer_has_its_result() {
    let failure = || SNARKError::Message("failed".to_string());
    assert_eq!(dpc_core::dpc::self_verification(Ok(true)), Ok(()));
    assert_eq!(dpc_core::dpc::self_verification(Ok(false)), Err(Error::InternalInconsistency));
    assert_eq!(dpc_core::dpc::self_verification(Err(failure())), Err(Error::ProofBackend));
    assert_eq!(dpc_core::dpc::proof_made(Ok(7u64)), Ok(7));
    assert_eq!(dpc_core::dpc::proof_made::<u64>(Err(failure())), Err(Error::ProofBackend));
    assert_eq!(dpc_core::dpc::fetched_digest(Some(Field::from_u64(3))), Ok(Field::from_u64(3)));
    assert_eq!(dpc_core::dpc::fetched_digest(None), Err(Error::LedgerAccess));
    assert_eq!(dpc_core::dpc::found_inner_proving_key(Some(&5u64)), Ok(&5));
    assert_eq!(dpc_core::dpc::found_inner_proving_key::<u64>(None), Err(Error::MissingInnerProvingKey));
    assert_eq!(dpc_core::dpc::found_outer_proving_key(Some(&6u64)), Ok(&6));
    assert_eq!(dpc_core::dpc::found_outer_proving_key::<u64>(None), Err(Error::MissingOuterProvingKey));
    assert_eq!(dpc_core::dpc::derivation(Some(1u8)), Ok(1));
    assert_eq!(dpc_core::dpc::derivation::<u8>(None), Err(Error::Derivation));
    assert_eq!(dpc_core::dpc::executable_count(2, 2, 4), Ok(()));
    assert_eq!(dpc_core::dpc::executable_count(0, 0, 0), Ok(()));
    assert_eq!(dpc_core::dpc::executable_count(2, 2, 3), Err(Error::ExecutableCount));
    assert_eq!(dpc_core::dpc::executable_count(usize::MAX, 1, 0), Err(Error::ExecutableCount));
}

#[test]
fn circuits_are_assembled_from_their_parts() {
    let owner = key(62);
    let kernel = TransactionKernel::new(vec![serial_number(1)], vec![Field::from_u64(2)], 3, vec![4]);
    let local_data = LocalData {
        root: Field::from_u64(10),
        leaf_randomizers: vec![Scalar::from_limbs([11, 0, 0, 0]).unwrap()],
    };
    let inputs = vec![record(&owner, true, 0, 20)];
    let outputs = vec![record(&owner, false, 5, 21)];
    let witnesses = vec![MerklePath::default()];
    let signature = owner.sign(&kernel.to_signature_message(), &mut StdRng::seed_from_u64(26)).unwrap();
    let randomizers = vec![Scalar::from_limbs([12, 0, 0, 0]).unwrap()];
    let program_randomness = Scalar::from_limbs([13, 0, 0, 0]).unwrap();
    let hashes = vec![Field::from_u64(14)];
    let (public, circuit) = dpc_core::dpc::inner_circuit(
        &kernel,
        &Field::from_u64(15),
        &hashes,
        Field::from_u64(16),
        program_randomness,
        &local_data,
        inputs.clone(),
        witnesses.clone(),
        vec![signature],
        outputs.clone(),
        randomizers.clone(),
    );
    assert_eq!(public.kernel, kernel);
    assert_eq!(public.ledger_digest, Field::from_u64(15));
    assert_eq!(public.encrypted_record_hashes, hashes);
    assert_eq!(public.program_commitment, Some(Field::from_u64(16)));
    assert_eq!(public.local_data_root, Some(Field::from_u64(10)));
    assert_eq!(circuit.public, public);
    assert_eq!(circuit.private.input_records, inputs);
    assert_eq!(circuit.private.input_witnesses, witnesses);
    assert_eq!(circuit.private.signatures, vec![signature]);
    assert_eq!(circuit.private.output_records, outputs);
    assert_eq!(circuit.private.encrypted_record_randomizers, randomizers);
    assert_eq!(circuit.private.program_randomness, program_randomness);
    assert_eq!(circuit.private.local_data_leaf_randomizers, local_data.leaf_randomizers);

    let executions = vec![Execution { index: 0, program_id: Field::from_u64(17), proof: vec![1] }];
    let (outer_public, outer) = dpc_core::dpc::outer_circuit(
        &public,
        &Field::from_u64(18),
        19u64,
        20u64,
        executions.clone(),
        Field::from_u64(16),
        program_randomness,
        Field::from_u64(10),
    );
    // The outer circuit does not publish what no transaction carries.
    assert_eq!(outer_public.inner_public_variables.kernel, kernel);
    assert_eq!(outer_public.inner_public_variables.ledger_digest, Field::from_u64(15));
    assert_eq!(outer_public.inner_public_variables.encrypted_record_hashes, hashes);
    assert_eq!(outer_public.inner_public_variables.program_commitment, None);
    assert_eq!(outer_public.inner_public_variables.local_data_root, None);
    assert_eq!(outer_public.inner_circuit_id, Field::from_u64(18));
    assert_eq!(outer.public, outer_public);
    assert_eq!(outer.private.inner_verifying_key, 19);
    assert_eq!(outer.private.inner_proof, 20);
    assert_eq!(outer.private.executions, executions);
    assert_eq!(outer.private.program_commitment, Field::from_u64(16));
    assert_eq!(outer.private.program_randomness, program_randomness);
    assert_eq!(outer.private.local_data_root, Field::from_u64(10));
}

#[test]
fn stale_digest_is_accepted_and_unknown_digest_is_rejected() {
    let parameters = TestParameters::new(2, 2);
    let mut ledger = TestLedger::empty();
    let transaction = build(&parameters, &ledger, 4);
    // The ledger moves on: the digest of the transaction is no longer the tip.
    let tip = Field::from_u64(2);
    ledger.digests.push(tip);
    ledger.latest = Some(tip);
    assert_ne!(Some(transaction.ledger_digest), ledger.latest);
    assert!(DPC::<TestParameters>::verify(&parameters, &transaction, &ledger));
    // The ledger prunes the old digest.
    ledger.digests.remove(0);
    assert_eq!(
        DPC::<TestParameters>::validate(&parameters, &transaction, &ledger),
        Verdict::Rejected(Check::LedgerDigest)
    );
}

#[test]
fn each_check_rejects_in_its_turn() {
    let parameters = TestParameters::new(2, 2);
    let ledger = TestLedger::empty();
    let good = build(&parameters, &ledger, 5);
    let verdict = |transaction: &Transaction<u64>, ledger: &TestLedger| {
        DPC::<TestParameters>::validate(&parameters, transaction, ledger)
    };

    let mut transaction = good.clone();
    transaction.kernel.serial_numbers.pop();
    assert_eq!(verdict(&transaction, &ledger), Verdict::Rejected(Check::SerialNumberCount));

    let mut transaction = good.clone();
    transaction.kernel.commitments.push(Field::from_u64(602));
    assert_eq!(verdict(&transaction, &ledger), Verdict::Rejected(Check::CommitmentCount));

    let mut transaction = good.clone();
    transaction.kernel.commitments[1] = transaction.kernel.commitments[0];
    assert_eq!(verdict(&transaction, &ledger), Verdict::Rejected(Check::DuplicateCommitments));

    let mut with_commitment = TestLedger::empty();
    with_commitment.commitments.push(Field::from_u64(601));
    assert_eq!(verdict(&good, &with_commitment), Verdict::Rejected(Check::CommitmentInLedger));

    // A serial number in the ledger is found before a commitment is.
    with_commitment.serial_numbers.push(good.kernel.serial_numbers[0]);
    assert_eq!(verdict(&good, &with_commitment), Verdict::Rejected(Check::SerialNumberInLedger));

    let mut transaction = good.clone();
    transaction.encrypted_records.pop();
    assert_eq!(verdict(&transaction, &ledger), Verdict::Rejected(Check::EncryptedRecordCount));

    let mut unhashable = parameters.clone();
    unhashable.fail_hash = true;
    assert_eq!(
        DPC::<TestParameters>::validate(&unhashable, &good, &ledger),
        Verdict::Rejected(Check::PublicVariables)
    );

    let mut transaction = good.clone();
    transaction.proof ^= 1;
    assert_eq!(verdict(&transaction, &ledger), Verdict::Rejected(Check::Proof));

    let mut transaction = good.clone();
    transaction.encrypted_records[0].bytes[0] ^= 1;
    assert_eq!(verdict(&transaction, &ledger), Verdict::Rejected(Check::Proof));

    let mut broken = parameters.clone();
    broken.outer_verifying_key = 0;
    assert_eq!(
        DPC::<TestParameters>::validate(&broken, &good, &ledger),
        Verdict::Rejected(Check::Proof)
    );

    assert_eq!(verdict(&good, &ledger), Verdict::Accepted);
}

#[test]
fn verify_transactions_is_the_conjunction_in_any_order() {
    let parameters = TestParameters::new(2, 2);
    let ledger = TestLedger::empty();
    let first = build(&parameters, &ledger, 6);
    let second = build(&parameters, &ledger, 7);
    let mut bad = build(&parameters, &ledger, 8);
    bad.proof ^= 1;

    let all = |transactions: &Vec<Transaction<u64>>| {
        DPC::<TestParameters>::verify_transactions(&parameters, transactions, &ledger)
    };
    assert!(all(&vec![]));
    assert!(all(&vec![first.clone(), second.clone()]));
    assert!(!all(&vec![first.clone(), bad.clone(), second.clone()]));
    assert!(!all(&vec![bad.clone(), first.clone(), second.clone()]));
    assert!(!all(&vec![first.clone(), second.clone(), bad.clone()]));
    assert_eq!(
        DPC::<TestParameters>::validate_transactions(
            &parameters,
            &vec![first.clone(), bad.clone(), second.clone()],
            &ledger
        ),
        vec![Verdict::Accepted, Verdict::Rejected(Check::Proof), Verdict::Accepted]
    );
    // Two transactions that spend the same serial numbers are each valid
    // against the ledger, and so is the list of both.
    assert_eq!(first.kernel.serial_numbers, second.kernel.serial_numbers);
    assert!(all(&vec![first.clone(), first]));
}

#[test]
fn authorize_fails_before_signing_when_keys_are_missing() {
    let parameters = TestParameters::new(2, 2);
    let mut state = coinbase(&key(5), 10);
    state.noop_private_keys[1] = None;
    let mut rng = StdRng::seed_from_u64(9);
    let mut untouched = StdRng::seed_from_u64(9);
    let result = DPC::<TestParameters>::authorize(&parameters, &vec![], &state, &mut rng);
    assert_eq!(result, Err(Error::MalformedAuthorization));
    assert_eq!(rng.next_u64(), untouched.next_u64());

    // One key is enough for the one slot that needs it.
    let result = DPC::<TestParameters>::authorize(&parameters, &vec![key(77)], &state, &mut rng);
    assert!(result.is_ok());
    assert_ne!(rng.next_u64(), untouched.next_u64());
}

#[test]
fn authorize_signs_each_slot_with_its_key() {
    let parameters = TestParameters::new(3, 1);
    let spenders = vec![key(31), key(32), key(33)];
    let noop = key(40);
    let mut state = coinbase(&key(5), 10);
    state.noop_private_keys = vec![None, Some(noop), None];
    let mut rng = StdRng::seed_from_u64(10);
    let authorization =
        DPC::<TestParameters>::authorize(&parameters, &spenders, &state, &mut rng).unwrap();
    let message = state.kernel.to_signature_message();
    let signers = [spenders[0], noop, spenders[1]];
    assert_eq!(authorization.signatures.len(), 3);
    for (signature, signer) in authorization.signatures.iter().zip(signers.iter()) {
        assert!(signature.verify(&signer.to_address().unwrap(), &message));
    }
    let others = [spenders[1], spenders[0], spenders[2]];
    for (signature, other) in authorization.signatures.iter().zip(others.iter()) {
        assert!(!signature.verify(&other.to_address().unwrap(), &message));
    }
    assert_eq!(authorization.kernel, state.kernel);
    assert_eq!(authorization.input_records, state.input_records);
    assert_eq!(authorization.output_records, state.output_records);
}

#[test]
fn authorize_signs_fresh_each_time() {
    let parameters = TestParameters::new(2, 2);
    let state = coinbase(&key(5), 10);
    let mut rng = StdRng::seed_from_u64(11);
    let first = DPC::<TestParameters>::authorize(&parameters, &vec![], &state, &mut rng).unwrap();
    let second = DPC::<TestParameters>::authorize(&parameters, &vec![], &state, &mut rng).unwrap();
    assert_ne!(first.signatures, second.signatures);
    let signature: &Signature = &first.signatures[0];
    let address: Address = key(1000).to_address().unwrap();
    assert!(signature.verify(&address, &state.kernel.to_signature_message()));
    let mut other = state.kernel.clone();
    other.fee = 1;
    assert!(!signature.verify(&address, &other.to_signature_message()));
}

#[test]
fn authorize_reports_a_signature_that_cannot_be_made() {
    let parameters = TestParameters::new(2, 2);
    let mut state = coinbase(&key(5), 10);
    // A memo that makes the message longer than what can be signed.
    state.kernel.memo = vec![0; 5000];
    let mut rng = StdRng::seed_from_u64(18);
    assert_eq!(
        DPC::<TestParameters>::authorize(&parameters, &vec![], &state, &mut rng),
        Err(Error::Signing)
    );
}

#[test]
fn authorize_signs_a_message_up_to_the_longest() {
    let parameters = TestParameters::new(2, 2);
    let mut rng = StdRng::seed_from_u64(23);
    let mut state = coinbase(&key(5), 10);
    // Eight elements for the serial numbers, two for the commitments, one
    // for the fee, and one for each byte of the memo.
    state.kernel.memo = vec![0; 4150];
    assert_eq!(state.kernel.to_signature_message().len(), 4161);
    let authorization =
        DPC::<TestParameters>::authorize(&parameters, &vec![], &state, &mut rng).unwrap();
    assert_eq!(authorization.signatures.len(), 2);
    state.kernel.memo.push(0);
    assert_eq!(
        DPC::<TestParameters>::authorize(&parameters, &vec![], &state, &mut rng),
        Err(Error::Signing)
    );
    // Too few keys are found before the message is looked at.
    state.noop_private_keys[0] = None;
    assert_eq!(
        DPC::<TestParameters>::authorize(&parameters, &vec![], &state, &mut rng),
        Err(Error::MalformedAuthorization)
    );
    // Without a slot to sign for, nothing is signed and nothing fails.
    let none = TestParameters::new(0, 2);
    let authorization =
        DPC::<TestParameters>::authorize(&none, &vec![], &state, &mut rng).unwrap();
    assert!(authorization.signatures.is_empty());
    assert_eq!(authorization.kernel, state.kernel);
}

#[test]
fn authorize_walks_no_more_slots_than_there_are_inputs() {
    let parameters = TestParameters::new(1, 1);
    let state = coinbase(&key(5), 10);
    let mut rng = StdRng::seed_from_u64(12);
    let authorization =
        DPC::<TestParameters>::authorize(&parameters, &vec![], &state, &mut rng).unwrap();
    assert_eq!(authorization.signatures.len(), 1);
}

fn execute_with(
    parameters: &TestParameters,
    ledger: &TestLedger,
    executables: &Vec<Program>,
) -> Result<Transaction<u64>, Error> {
    let mut rng = StdRng::seed_from_u64(13);
    let state = coinbase(&key(5), 10);
    let authorization =
        DPC::<TestParameters>::authorize(&TestParameters::new(2, 2), &vec![], &state, &mut rng)
            .unwrap();
    DPC::<TestParameters>::execute(parameters, authorization, executables, ledger, &mut rng)
}

#[test]
fn execute_reports_each_failure() {
    let parameters = TestParameters::new(2, 2);
    let ledger = TestLedger::empty();
    assert!(execute_with(&parameters, &ledger, &programs(4)).is_ok());

    assert_eq!(execute_with(&parameters, &ledger, &programs(3)), Err(Error::ExecutableCount));
    assert_eq!(execute_with(&parameters, &ledger, &programs(5)), Err(Error::ExecutableCount));
    let overflowing = TestParameters::new(usize::MAX, 1);
    assert_eq!(execute_with(&overflowing, &ledger, &programs(0)), Err(Error::ExecutableCount));

    let mut failing = parameters.clone();
    failing.fail_local_data = true;
    assert_eq!(execute_with(&failing, &ledger, &programs(4)), Err(Error::Derivation));
    let mut failing = parameters.clone();
    failing.fail_program_commitment = true;
    assert_eq!(execute_with(&failing, &ledger, &programs(4)), Err(Error::Derivation));
    let mut failing = parameters.clone();
    failing.fail_encryption = true;
    assert_eq!(execute_with(&failing, &ledger, &programs(4)), Err(Error::Derivation));
    let mut failing = parameters.clone();
    failing.fail_hash = true;
    assert_eq!(execute_with(&failing, &ledger, &programs(4)), Err(Error::Derivation));

    let mut executables = programs(4);
    executables[2].fails = true;
    assert_eq!(execute_with(&parameters, &ledger, &executables), Err(Error::ProgramExecution));

    let mut no_digest = TestLedger::empty();
    no_digest.latest = None;
    assert_eq!(execute_with(&parameters, &no_digest, &programs(4)), Err(Error::LedgerAccess));

    let mut failing = parameters.clone();
    failing.inner_proving_key = None;
    assert_eq!(execute_with(&failing, &ledger, &programs(4)), Err(Error::MissingInnerProvingKey));
    let mut failing = parameters.clone();
    failing.outer_proving_key = None;
    assert_eq!(execute_with(&failing, &ledger, &programs(4)), Err(Error::MissingOuterProvingKey));

    let mut failing = parameters.clone();
    failing.inner_proving_key = Some(0);
    assert_eq!(execute_with(&failing, &ledger, &programs(4)), Err(Error::ProofBackend));
    let mut failing = parameters.clone();
    failing.outer_verifying_key = 0;
    assert_eq!(execute_with(&failing, &ledger, &programs(4)), Err(Error::ProofBackend));

    // Keys that do not belong together: the proof is made, and then fails its
    // own verification.
    let mut failing = parameters.clone();
    failing.inner_verifying_key = 12;
    assert_eq!(execute_with(&failing, &ledger, &programs(4)), Err(Error::InternalInconsistency));
    let mut failing = parameters.clone();
    failing.outer_proving_key = Some(14);
    assert_eq!(execute_with(&failing, &ledger, &programs(4)), Err(Error::InternalInconsistency));
}

#[test]
fn execute_asks_the_ledger_for_the_witness_of_a_real_input() {
    let parameters = TestParameters::new(2, 2);
    let spender = key(50);
    let mut state = coinbase(&key(5), 10);
    state.input_records[0] = record(&spender, false, 10, 500);
    state.noop_private_keys[0] = None;
    let mut rng = StdRng::seed_from_u64(14);

    // The ledger does not hold the record's commitment: no witness.
    let ledger = TestLedger::empty();
    let authorization =
        DPC::<TestParameters>::authorize(&parameters, &vec![spender], &state, &mut rng).unwrap();
    assert_eq!(
        DPC::<TestParameters>::execute(&parameters, authorization, &programs(4), &ledger, &mut rng),
        Err(Error::LedgerAccess)
    );

    let mut ledger = TestLedger::empty();
    ledger.commitments.push(Field::from_u64(500));
    let authorization =
        DPC::<TestParameters>::authorize(&parameters, &vec![spender], &state, &mut rng).unwrap();
    let transaction =
        DPC::<TestParameters>::execute(&parameters, authorization, &programs(4), &ledger, &mut rng)
            .unwrap();
    assert!(DPC::<TestParameters>::verify(&parameters, &transaction, &ledger));

    ledger.fail_witness = true;
    let authorization =
        DPC::<TestParameters>::authorize(&parameters, &vec![spender], &state, &mut rng).unwrap();
    assert_eq!(
        DPC::<TestParameters>::execute(&parameters, authorization, &programs(4), &ledger, &mut rng),
        Err(Error::LedgerAccess)
    );
}

#[test]
fn executables_are_run_for_the_record_at_their_position() {
    let local_data = LocalData { root: Field::from_u64(3), leaf_randomizers: vec![] };
    let executions = dpc_core::dpc::run_executables(&programs(3), &local_data).unwrap();
    assert_eq!(executions.len(), 3);
    for (index, execution) in executions.iter().enumerate() {
        assert_eq!(
            execution,
            &Execution { index, program_id: Field::from_u64(3), proof: vec![index as u8] }
        );
    }
    let mut failing = programs(3);
    failing[1].fails = true;
    assert_eq!(dpc_core::dpc::run_executables(&failing, &local_data), Err(Error::ProgramExecution));
    assert_eq!(dpc_core::dpc::run_executables(&programs(0), &local_data), Ok(vec![]));
}

#[test]
fn records_are_encrypted_one_by_one() {
    let parameters = TestParameters::new(2, 2);
    let owner = key(61);
    let records = vec![record(&owner, false, 5, 1), record(&owner, false, 6, 2), record(&owner, true, 0, 3)];
    let mut rng = StdRng::seed_from_u64(17);
    let (encrypted, hashes, randomizers) =
        dpc_core::dpc::encrypt_records(&parameters, &records, &mut rng).unwrap();
    assert_eq!((encrypted.len(), hashes.len(), randomizers.len()), (3, 3, 3));
    for (record, hash) in encrypted.iter().zip(hashes.iter()) {
        assert_eq!(Some(*hash), parameters.encrypted_record_hash(record));
    }
    assert_eq!(
        dpc_core::variables::encrypted_record_hashes(&parameters, &encrypted),
        Some(hashes.clone())
    );
    let mut failing = parameters.clone();
    failing.fail_hash = true;
    assert_eq!(dpc_core::dpc::encrypt_records(&failing, &records, &mut rng), Err(Error::Derivation));
    assert_eq!(dpc_core::variables::encrypted_record_hashes(&failing, &encrypted), None);
    assert_eq!(
        dpc_core::dpc::hashed_records(&failing, encrypted.clone(), randomizers.clone()),
        Err(Error::Derivation)
    );
    let mut failing = parameters.clone();
    failing.fail_encryption = true;
    assert_eq!(dpc_core::dpc::encrypt_records(&failing, &records, &mut rng), Err(Error::Derivation));
    assert_eq!(
        dpc_core::dpc::hashed_records(&parameters, encrypted.clone(), randomizers.clone()),
        Ok((encrypted, hashes, randomizers))
    );

    // Without a record nothing can fail, and nothing is drawn.
    let mut untouched = rng.clone();
    assert_eq!(dpc_core::dpc::encrypt_records(&failing, &vec![], &mut rng), Ok((vec![], vec![], vec![])));
    failing.fail_hash = true;
    assert_eq!(dpc_core::dpc::encrypt_records(&failing, &vec![], &mut rng), Ok((vec![], vec![], vec![])));
    assert_eq!(rng.next_u64(), untouched.next_u64());
}

#[test]
fn input_witnesses_are_empty_for_dummies() {
    let mut ledger = TestLedger::empty();
    ledger.commitments.push(Field::from_u64(9));
    ledger.commitments.push(Field::from_u64(500));
    let owner = key(60);
    let records = vec![record(&owner, true, 0, 77), record(&owner, false, 1, 500)];
    let witnesses = dpc_core::dpc::input_witnesses(&ledger, &records, 2).unwrap();
    assert_eq!(witnesses[0], MerklePath::default());
    assert_eq!(witnesses[0], MerklePath { path: vec![], leaf_index: 0 });
    assert_eq!(witnesses[1], MerklePath { path: vec![Field::from_u64(500)], leaf_index: 1 });
    assert_eq!(dpc_core::dpc::input_witnesses(&ledger, &records, 1).unwrap().len(), 1);
    assert_eq!(dpc_core::dpc::input_witnesses(&ledger, &records, 5).unwrap().len(), 2);
    let missing = vec![record(&owner, false, 1, 12345)];
    assert_eq!(dpc_core::dpc::input_witnesses(&ledger, &missing, 1), Err(Error::LedgerAccess));
}

#[test]
fn backend_setup_makes_keys_that_belong_together() {
    let mut rng = StdRng::seed_from_u64(15);
    let (proving_key, verifying_key) = InnerBackend::setup((), &mut rng).unwrap();
    let mut parameters = TestParameters::new(2, 2);
    parameters.inner_proving_key = Some(proving_key);
    parameters.inner_verifying_key = verifying_key;
    let (proving_key, verifying_key) = OuterBackend::setup((), &mut rng).unwrap();
    parameters.outer_proving_key = Some(proving_key);
    parameters.outer_verifying_key = verifying_key;
    let ledger = TestLedger::empty();
    let transaction = build(&parameters, &ledger, 16);
    assert!(DPC::<TestParameters>::verify(&parameters, &transaction, &ledger));
    let _: Group = key(1).to_address().unwrap().to_group();
}

fn transaction_authorization_serialization_test(parameters: &TestParameters) {
    let mut rng = StdRng::seed_from_u64(1231275789u64);

    let recipient = key(5);
    let amount = 10;
    let state = coinbase(&recipient, amount);
    let authorization =
        DPC::<TestParameters>::authorize(parameters, &vec![], &state, &mut rng).unwrap();

    // Serialize and deserialize the transaction authorization.
    let deserialized_authorization =
        TransactionAuthorization::read_le(&authorization.to_bytes_le()[..]).unwrap();
    assert_eq!(authorization, deserialized_authorization);
}

#[test]
fn test_transaction_authorization_serialization() {
    transaction_authorization_serialization_test(&TestParameters::new(2, 2));
    transaction_authorization_serialization_test(&TestParameters::new(1, 3));
}

#[test]
fn transaction_is_written_in_the_order_of_its_parts() {
    let parameters = TestParameters::new(2, 2);
    let ledger = TestLedger::empty();
    let transaction = build(&parameters, &ledger, 21);
    let bytes = transaction.to_bytes_le();

    let mut expected = Vec::new();
    transaction.kernel.encode(&mut expected);
    transaction.ledger_digest.encode(&mut expected);
    transaction.inner_circuit_id.encode(&mut expected);
    expected.extend_from_slice(&2u64.to_le_bytes());
    for record in &transaction.encrypted_records {
        encode_list(&record.bytes, &mut expected);
    }
    transaction.proof.encode(&mut expected);
    assert_eq!(bytes, expected);
    // Each encrypted record of the test parameters has 40 bytes.
    let kernel = (8 + 256) + (8 + 64) + 8 + (8 + 3);
    assert_eq!(bytes.len(), kernel + 32 + 32 + 8 + 2 * (8 + 40) + 8);

    let read = Transaction::<u64>::read_le(&bytes).unwrap();
    assert_eq!(read, transaction);
    assert!(DPC::<TestParameters>::verify(&parameters, &read, &ledger));
    // What follows the transaction is not read.
    let mut longer = bytes.clone();
    longer.extend_from_slice(&[1, 2, 3]);
    assert_eq!(Transaction::<u64>::read_le(&longer), Ok(transaction.clone()));

    // A transaction without encrypted records and without memo.
    let bare = Transaction {
        kernel: TransactionKernel::new(vec![], vec![], 0, vec![]),
        ledger_digest: Field::from_u64(1),
        inner_circuit_id: Field::from_u64(2),
        encrypted_records: vec![],
        proof: 3u64,
    };
    assert_eq!(bare.to_bytes_le().len(), (8 + 8 + 8 + 8) + 32 + 32 + 8 + 8);
    assert_eq!(Transaction::<u64>::read_le(&bare.to_bytes_le()), Ok(bare));
}

#[test]
fn transaction_is_not_read_from_other_bytes() {
    let parameters = TestParameters::new(2, 2);
    let ledger = TestLedger::empty();
    let transaction = build(&parameters, &ledger, 22);
    let bytes = transaction.to_bytes_le();
    let kernel = (8 + 256) + (8 + 64) + 8 + (8 + 3);
    assert_eq!(Transaction::<u64>::read_le(&[]), Err(Error::Parse));
    for cut in [1, kernel, kernel + 40, kernel + 64, kernel + 72, kernel + 80, bytes.len() - 1] {
        assert_eq!(Transaction::<u64>::read_le(&bytes[..cut]), Err(Error::Parse));
    }
    // A ledger digest that is no field element.
    let mut bad = bytes.clone();
    bad[kernel..kernel + 32].copy_from_slice(&[0xff; 32]);
    assert_eq!(Transaction::<u64>::read_le(&bad), Err(Error::Parse));
    // More encrypted records than there are bytes.
    let mut bad = bytes.clone();
    bad[kernel + 64..kernel + 72].copy_from_slice(&[0xff; 8]);
    assert_eq!(Transaction::<u64>::read_le(&bad), Err(Error::Parse));
    // An encrypted record that is longer than what is left.
    let mut bad = bytes.clone();
    bad[kernel + 72] = 200;
    assert_eq!(Transaction::<u64>::read_le(&bad), Err(Error::Parse));
    // A flipped byte of the proof is read, and the transaction is rejected.
    let mut tampered = bytes.clone();
    let last = tampered.len() - 1;
    tampered[last] ^= 1;
    let read = Transaction::<u64>::read_le(&tampered).unwrap();
    assert_eq!(
        DPC::<TestParameters>::validate(&parameters, &read, &ledger),
        Verdict::Rejected(Check::Proof)
    );
}
