//! The variables of the two circuits: what is assembled for the inner and for
//! the outer proof, public and private.

use crate::account::Signature;
use crate::field::Field;
use crate::field::Scalar;
use crate::kernel::KernelView;
use crate::kernel::TransactionKernel;
use crate::ledger::MerklePath;
use crate::parameters::Parameters;
use crate::record::EncryptedRecord;
use crate::record::Execution;
use crate::record::Record;
use crate::snark::SNARK;
use crate::transaction::Transaction;
use crate::transaction::TransactionView;
use vstd::prelude::*;

verus! {

/// The public variables of the inner circuit as plain values.
pub struct InnerPublicVariablesView {
    /// The kernel.
    pub kernel: KernelView,
    /// The ledger digest.
    pub ledger_digest: Field,
    /// The hashes of the encrypted output records.
    pub encrypted_record_hashes: Seq<Field>,
    /// The program commitment, where it is public.
    pub program_commitment: Option<Field>,
    /// The root of the local data, where it is public.
    pub local_data_root: Option<Field>,
}

/// The public variables of the inner circuit.
#[derive(Clone, Debug, PartialEq, Eq, Hash)]
pub struct InnerPublicVariables {
    pub kernel: TransactionKernel,
    pub ledger_digest: Field,
    pub encrypted_record_hashes: Vec<Field>,
    pub program_commitment: Option<Field>,
    pub local_data_root: Option<Field>,
}

impl View for InnerPublicVariables {
    type V = InnerPublicVariablesView;

    open spec fn view(&self) -> InnerPublicVariablesView {
        InnerPublicVariablesView {
            kernel: self.kernel@,
            ledger_digest: self.ledger_digest,
            encrypted_record_hashes: self.encrypted_record_hashes@,
            program_commitment: self.program_commitment,
            local_data_root: self.local_data_root,
        }
    }
}

impl InnerPublicVariables {
    /// Assembles the public variables of the inner circuit.
    pub fn new(
        kernel: &TransactionKernel,
        ledger_digest: &Field,
        encrypted_record_hashes: &Vec<Field>,
        program_commitment: Option<Field>,
        local_data_root: Option<Field>,
    ) -> (r: InnerPublicVariables)
        ensures
            r@ == (InnerPublicVariablesView {
                kernel: kernel@,
                ledger_digest: *ledger_digest,
                encrypted_record_hashes: encrypted_record_hashes@,
                program_commitment,
                local_data_root,
            }),
    {
        InnerPublicVariables {
            kernel: kernel.copy(),
            ledger_digest: *ledger_digest,
            encrypted_record_hashes: encrypted_record_hashes.clone(),
            program_commitment,
            local_data_root,
        }
    }

    /// Public variables with the same contents.
    pub fn copy(&self) -> (r: InnerPublicVariables)
        ensures
            r@ == self@,
    {
        InnerPublicVariables::new(
            &self.kernel,
            &self.ledger_digest,
            &self.encrypted_record_hashes,
            self.program_commitment,
            self.local_data_root,
        )
    }
}

/// The private variables of the inner circuit.
#[derive(Clone, Debug, PartialEq, Eq, Hash)]
pub struct InnerPrivateVariables {
    pub input_records: Vec<Record>,
    pub input_witnesses: Vec<MerklePath>,
    pub signatures: Vec<Signature>,
    pub output_records: Vec<Record>,
    pub encrypted_record_randomizers: Vec<Scalar>,
    pub program_randomness: Scalar,
    pub local_data_leaf_randomizers: Vec<Scalar>,
}

impl InnerPrivateVariables {
    /// Assembles the private variables of the inner circuit.
    pub fn new(
        input_records: Vec<Record>,
        input_witnesses: Vec<MerklePath>,
        signatures: Vec<Signature>,
        output_records: Vec<Record>,
        encrypted_record_randomizers: Vec<Scalar>,
        program_randomness: Scalar,
        local_data_leaf_randomizers: Vec<Scalar>,
    ) -> (r: InnerPrivateVariables)
        ensures
            r.input_records@ == input_records@,
            r.input_witnesses@ == input_witnesses@,
            r.signatures@ == signatures@,
            r.output_records@ == output_records@,
            r.encrypted_record_randomizers@ == encrypted_record_randomizers@,
            r.program_randomness == program_randomness,
            r.local_data_leaf_randomizers@ == local_data_leaf_randomizers@,
    {
        InnerPrivateVariables {
            input_records,
            input_witnesses,
            signatures,
            output_records,
            encrypted_record_randomizers,
            program_randomness,
            local_data_leaf_randomizers,
        }
    }
}

/// The inner circuit with its variables assigned.
#[derive(Clone, Debug, PartialEq, Eq, Hash)]
pub struct InnerCircuit {
    pub public: InnerPublicVariables,
    pub private: InnerPrivateVariables,
}

impl InnerCircuit {
    /// The inner circuit on the given variables.
    pub fn new(public: InnerPublicVariables, private: InnerPrivateVariables) -> (r: InnerCircuit)
        ensures
            r.public@ == public@,
            r.private == private,
    {
        InnerCircuit { public, private }
    }
}

/// The public variables of the outer circuit as plain values.
pub struct OuterPublicVariablesView {
    /// The public variables of the inner circuit, without those that no
    /// transaction carries.
    pub inner_public_variables: InnerPublicVariablesView,
    /// The identifier of the inner circuit.
    pub inner_circuit_id: Field,
}

/// The public variables of the outer circuit.
#[derive(Clone, Debug, PartialEq, Eq, Hash)]
pub struct OuterPublicVariables {
    pub inner_public_variables: InnerPublicVariables,
    pub inner_circuit_id: Field,
}

impl View for OuterPublicVariables {
    type V = OuterPublicVariablesView;

    open spec fn view(&self) -> OuterPublicVariablesView {
        OuterPublicVariablesView {
            inner_public_variables: self.inner_public_variables@,
            inner_circuit_id: self.inner_circuit_id,
        }
    }
}

/// The public variables of the outer circuit for a kernel, a ledger digest,
/// the hashes of the encrypted records and the identifier of the inner
/// circuit. The program commitment and the root of the local data are left
/// out: no transaction carries them, so the outer circuit takes them as
/// witnesses.
pub open spec fn spec_outer_public_variables(
    kernel: KernelView,
    ledger_digest: Field,
    encrypted_record_hashes: Seq<Field>,
    inner_circuit_id: Field,
) -> OuterPublicVariablesView {
    OuterPublicVariablesView {
        inner_public_variables: InnerPublicVariablesView {
            kernel,
            ledger_digest,
            encrypted_record_hashes,
            program_commitment: None,
            local_data_root: None,
        },
        inner_circuit_id,
    }
}

/// The hashes of a list of encrypted records under the parameters, or `None`
/// where one of them cannot be computed.
pub open spec fn spec_encrypted_record_hashes<C: Parameters>(
    parameters: C,
    records: Seq<Seq<u8>>,
) -> Option<Seq<Field>>
    decreases records.len(),
{
    if records.len() == 0 {
        Some(Seq::empty())
    } else {
        match (
            spec_encrypted_record_hashes(parameters, records.drop_last()),
            parameters.spec_encrypted_record_hash(records.last()),
        ) {
            (Some(hashes), Some(hash)) => Some(hashes.push(hash)),
            _ => None,
        }
    }
}

/// The public variables of the outer circuit that a transaction stands for,
/// or `None` where an encrypted record cannot be hashed.
pub open spec fn spec_outer_public_variables_from<C: Parameters>(
    parameters: C,
    transaction: TransactionView<<C::OuterSNARK as SNARK>::Proof>,
) -> Option<OuterPublicVariablesView> {
    match spec_encrypted_record_hashes(parameters, transaction.encrypted_records) {
        None => None,
        Some(hashes) => Some(
            spec_outer_public_variables(
                transaction.kernel,
                transaction.ledger_digest,
                hashes,
                transaction.inner_circuit_id,
            ),
        ),
    }
}

/// Returns the hashes of the encrypted records, or `None` where one of them
/// cannot be computed.
pub fn encrypted_record_hashes<C: Parameters>(parameters: &C, records: &Vec<EncryptedRecord>) -> (r:
    Option<Vec<Field>>)
    ensures
        r is Some <==> spec_encrypted_record_hashes(
            *parameters,
            crate::record::encrypted_record_views(records@),
        ) is Some,
        r matches Some(hashes) ==> Some(hashes@) == spec_encrypted_record_hashes(
            *parameters,
            crate::record::encrypted_record_views(records@),
        ),
{
    let ghost views = crate::record::encrypted_record_views(records@);
    let mut hashes: Vec<Field> = Vec::new();
    let mut index: usize = 0;
    while index < records.len()
        invariant
            index <= records.len(),
            views == crate::record::encrypted_record_views(records@),
            Some(hashes@) == spec_encrypted_record_hashes(*parameters, views.take(index as int)),
        decreases records.len() - index,
    {
        let ghost next = views.take(index + 1);
        assert(next.drop_last() =~= views.take(index as int));
        assert(next.last() == records[index as int]@);
        match parameters.encrypted_record_hash(&records[index]) {
            Some(hash) => {
                hashes.push(hash);
            },
            None => {
                proof {
                    encrypted_record_hashes_fail_on(*parameters, views, index + 1);
                }
                return None;
            },
        }
        index += 1;
    }
    assert(views.take(index as int) =~= views);
    Some(hashes)
}

/// Where the hashes of the first records of a list cannot be computed, those
/// of the whole list cannot.
proof fn encrypted_record_hashes_fail_on<C: Parameters>(
    parameters: C,
    records: Seq<Seq<u8>>,
    count: int,
)
    requires
        0 <= count <= records.len(),
        spec_encrypted_record_hashes(parameters, records.take(count)) is None,
    ensures
        spec_encrypted_record_hashes(parameters, records) is None,
    decreases records.len() - count,
{
    if count < records.len() {
        let next = records.take(count + 1);
        assert(next.drop_last() =~= records.take(count));
        encrypted_record_hashes_fail_on(parameters, records, count + 1);
    } else {
        assert(records.take(count) =~= records);
    }
}

impl OuterPublicVariables {
    /// Reconstructs the public variables of the outer circuit from a
    /// transaction, or `None` where an encrypted record cannot be hashed.
    pub fn from<C: Parameters>(
        parameters: &C,
        transaction: &Transaction<<C::OuterSNARK as SNARK>::Proof>,
    ) -> (r: Option<OuterPublicVariables>)
        ensures
            r is Some <==> spec_outer_public_variables_from(*parameters, transaction@) is Some,
            r matches Some(variables) ==> Some(variables@) == spec_outer_public_variables_from(
                *parameters,
                transaction@,
            ),
    {
        match encrypted_record_hashes(parameters, &transaction.encrypted_records) {
            None => None,
            Some(hashes) => Some(
                OuterPublicVariables {
                    inner_public_variables: InnerPublicVariables::new(
                        &transaction.kernel,
                        &transaction.ledger_digest,
                        &hashes,
                        None,
                        None,
                    ),
                    inner_circuit_id: transaction.inner_circuit_id,
                },
            ),
        }
    }

    /// Assembles the public variables of the outer circuit from those of the
    /// inner circuit and the inner circuit's identifier.
    pub fn new(inner_public_variables: &InnerPublicVariables, inner_circuit_id: &Field) -> (r:
        OuterPublicVariables)
        ensures
            r@ == spec_outer_public_variables(
                inner_public_variables@.kernel,
                inner_public_variables@.ledger_digest,
                inner_public_variables@.encrypted_record_hashes,
                *inner_circuit_id,
            ),
    {
        OuterPublicVariables {
            inner_public_variables: InnerPublicVariables::new(
                &inner_public_variables.kernel,
                &inner_public_variables.ledger_digest,
                &inner_public_variables.encrypted_record_hashes,
                None,
                None,
            ),
            inner_circuit_id: *inner_circuit_id,
        }
    }

    /// Public variables with the same contents.
    pub fn copy(&self) -> (r: OuterPublicVariables)
        ensures
            r@ == self@,
    {
        OuterPublicVariables {
            inner_public_variables: self.inner_public_variables.copy(),
            inner_circuit_id: self.inner_circuit_id,
        }
    }
}

/// The private variables of the outer circuit, for an inner backend with
/// verifying keys `K` and proofs `P`.
#[derive(Clone, Debug, PartialEq, Eq, Hash)]
pub struct OuterPrivateVariables<K, P> {
    pub inner_verifying_key: K,
    pub inner_proof: P,
    pub executions: Vec<Execution>,
    pub program_commitment: Field,
    pub program_randomness: Scalar,
    pub local_data_root: Field,
}

impl<K, P> OuterPrivateVariables<K, P> {
    /// Assembles the private variables of the outer circuit.
    pub fn new(
        inner_verifying_key: K,
        inner_proof: P,
        executions: Vec<Execution>,
        program_commitment: Field,
        program_randomness: Scalar,
        local_data_root: Field,
    ) -> (r: OuterPrivateVariables<K, P>)
        ensures
            r.inner_verifying_key == inner_verifying_key,
            r.inner_proof == inner_proof,
            r.executions@ == executions@,
            r.program_commitment == program_commitment,
            r.program_randomness == program_randomness,
            r.local_data_root == local_data_root,
    {
        OuterPrivateVariables {
            inner_verifying_key,
            inner_proof,
            executions,
            program_commitment,
            program_randomness,
            local_data_root,
        }
    }
}

/// The outer circuit with its variables assigned.
#[derive(Clone, Debug, PartialEq, Eq, Hash)]
pub struct OuterCircuit<K, P> {
    pub public: OuterPublicVariables,
    pub private: OuterPrivateVariables<K, P>,
}

impl<K, P> OuterCircuit<K, P> {
    /// The outer circuit on the given variables.
    pub fn new(public: OuterPublicVariables, private: OuterPrivateVariables<K, P>) -> (r:
        OuterCircuit<K, P>)
        ensures
            r.public@ == public@,
            r.private == private,
    {
        OuterCircuit { public, private }
    }
}

} // verus!
