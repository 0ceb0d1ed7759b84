//! The transaction: what an execution broadcasts to the ledger.

use crate::error::Error;
use crate::field::Field;
use crate::kernel::kernel_written_and_read;
use crate::kernel::spec_kernel_bytes;
use crate::kernel::spec_kernel_wf;
use crate::kernel::spec_read_kernel;
use crate::kernel::KernelView;
use crate::kernel::TransactionKernel;
use crate::record::encrypted_record_views;
use crate::record::EncryptedRecord;
use crate::serial_number::SerialNumber;
use crate::wire::decode_string;
use crate::wire::decode_strings_fail_on;
use crate::wire::decode_strings_takes_bytes;
use crate::wire::encode_string;
use crate::wire::encode_u64;
use crate::wire::spec_decode_strings;
use crate::wire::spec_encode_strings;
use crate::wire::strings_encoded_and_decoded;
use crate::wire::strings_wf;
use crate::wire::Wire;
use vstd::bytes::spec_u64_from_le_bytes;
use vstd::bytes::spec_u64_to_le_bytes;
use vstd::bytes::u64_from_le_bytes;
use vstd::prelude::*;
use vstd::slice::slice_subrange;

verus! {

/// A transaction as plain values.
pub struct TransactionView<P> {
    /// The kernel.
    pub kernel: KernelView,
    /// The digest of the ledger that the transaction was built on.
    pub ledger_digest: Field,
    /// The identifier of the inner circuit.
    pub inner_circuit_id: Field,
    /// The bytes of the encrypted output records.
    pub encrypted_records: Seq<Seq<u8>>,
    /// The outer proof.
    pub proof: P,
}

/// A transaction: the kernel, the ledger digest it was built on, the
/// identifier of the inner circuit, the encrypted output records, and the
/// outer proof.
#[derive(Clone, Debug, PartialEq, Eq, Hash)]
pub struct Transaction<P> {
    pub kernel: TransactionKernel,
    pub ledger_digest: Field,
    pub inner_circuit_id: Field,
    pub encrypted_records: Vec<EncryptedRecord>,
    pub proof: P,
}

impl<P> View for Transaction<P> {
    type V = TransactionView<P>;

    open spec fn view(&self) -> TransactionView<P> {
        TransactionView {
            kernel: self.kernel@,
            ledger_digest: self.ledger_digest,
            inner_circuit_id: self.inner_circuit_id,
            encrypted_records: encrypted_record_views(self.encrypted_records@),
            proof: self.proof,
        }
    }
}

impl<P> Transaction<P> {
    /// Packages a transaction.
    pub fn from(
        kernel: TransactionKernel,
        ledger_digest: Field,
        inner_circuit_id: Field,
        encrypted_records: Vec<EncryptedRecord>,
        proof: P,
    ) -> (r: Transaction<P>)
        ensures
            r@ == (TransactionView {
                kernel: kernel@,
                ledger_digest,
                inner_circuit_id,
                encrypted_records: encrypted_record_views(encrypted_records@),
                proof,
            }),
    {
        Transaction { kernel, ledger_digest, inner_circuit_id, encrypted_records, proof }
    }

    /// Returns the serial numbers of the records that the transaction spends.
    pub fn serial_numbers(&self) -> (r: &Vec<SerialNumber>)
        ensures
            r@ == self@.kernel.serial_numbers,
    {
        &self.kernel.serial_numbers
    }

    /// Returns the commitments of the records that the transaction creates.
    pub fn commitments(&self) -> (r: &Vec<Field>)
        ensures
            r@ == self@.kernel.commitments,
    {
        &self.kernel.commitments
    }

    /// Returns the encrypted output records.
    pub fn encrypted_records(&self) -> (r: &Vec<EncryptedRecord>)
        ensures
            encrypted_record_views(r@) == self@.encrypted_records,
    {
        &self.encrypted_records
    }
}

/// Every part of the transaction can be written and read back.
pub open spec fn spec_transaction_wf<P: Wire>(transaction: TransactionView<P>) -> bool {
    &&& spec_kernel_wf(transaction.kernel)
    &&& transaction.ledger_digest.wf()
    &&& transaction.inner_circuit_id.wf()
    &&& transaction.encrypted_records.len() <= u64::MAX
    &&& strings_wf(transaction.encrypted_records)
    &&& transaction.proof.wire_wf()
}

/// The byte form of a transaction: the kernel, the ledger digest, the
/// identifier of the inner circuit, the encrypted records and the proof, in
/// this order. The encrypted records stand behind their number, and each
/// behind the number of its bytes.
pub open spec fn spec_transaction_bytes<P: Wire>(transaction: TransactionView<P>) -> Seq<u8> {
    spec_kernel_bytes(transaction.kernel) + (transaction.ledger_digest.spec_encode() + (
    transaction.inner_circuit_id.spec_encode() + (spec_u64_to_le_bytes(
        transaction.encrypted_records.len() as u64,
    ) + (spec_encode_strings(transaction.encrypted_records) + transaction.proof.spec_encode()))))
}

/// The transaction that bytes begin with the byte form of, or `None` where
/// they begin with the byte form of none.
pub open spec fn spec_read_transaction<P: Wire>(bytes: Seq<u8>) -> Option<TransactionView<P>> {
    match spec_read_kernel(bytes) {
        None => None,
        Some((kernel, bytes)) => if bytes.len() < 72 {
            None
        } else {
            match (
                Field::spec_decode(bytes.subrange(0, 32)),
                Field::spec_decode(bytes.subrange(32, 64)),
                spec_decode_strings(
                    bytes.skip(72),
                    spec_u64_from_le_bytes(bytes.subrange(64, 72)) as nat,
                ),
            ) {
                (Some(ledger_digest), Some(inner_circuit_id), Some((encrypted_records, bytes))) => {
                    if bytes.len() < P::spec_size() {
                        None
                    } else {
                        match P::spec_decode(bytes.take(P::spec_size() as int)) {
                            Some(proof) => Some(
                                TransactionView {
                                    kernel,
                                    ledger_digest,
                                    inner_circuit_id,
                                    encrypted_records,
                                    proof,
                                },
                            ),
                            None => None,
                        }
                    }
                },
                _ => None,
            }
        },
    }
}

/// What follows the kernel in the byte form of a transaction is read back
/// as the rest of the transaction.
proof fn body_written_and_read<P: Wire>(transaction: TransactionView<P>, bytes: Seq<u8>)
    requires
        spec_transaction_wf(transaction),
        bytes == transaction.ledger_digest.spec_encode() + (
        transaction.inner_circuit_id.spec_encode() + (spec_u64_to_le_bytes(
            transaction.encrypted_records.len() as u64,
        ) + (spec_encode_strings(transaction.encrypted_records)
            + transaction.proof.spec_encode()))),
    ensures
        bytes.len() >= 72,
        Field::spec_decode(bytes.subrange(0, 32)) == Some(transaction.ledger_digest),
        Field::spec_decode(bytes.subrange(32, 64)) == Some(transaction.inner_circuit_id),
        spec_u64_from_le_bytes(bytes.subrange(64, 72)) == transaction.encrypted_records.len(),
        spec_decode_strings(bytes.skip(72), transaction.encrypted_records.len()) == Some(
            (transaction.encrypted_records, transaction.proof.spec_encode()),
        ),
        transaction.proof.spec_encode().len() == P::spec_size(),
        P::spec_decode(transaction.proof.spec_encode()) == Some(transaction.proof),
{
    let proof = transaction.proof.spec_encode();
    let records = spec_encode_strings(transaction.encrypted_records) + proof;
    let number: u64 = transaction.encrypted_records.len() as u64;
    let count = spec_u64_to_le_bytes(number);
    let digest = transaction.ledger_digest.spec_encode();
    let id = transaction.inner_circuit_id.spec_encode();
    transaction.ledger_digest.encoded_and_decoded();
    transaction.inner_circuit_id.encoded_and_decoded();
    transaction.proof.encoded_and_decoded();
    number.encoded_and_decoded();
    assert(digest.len() == 32);
    assert(id.len() == 32);
    assert(count.len() == 8);
    assert(bytes.subrange(0, 32) =~= digest);
    assert(bytes.subrange(32, 64) =~= id);
    assert(bytes.subrange(64, 72) =~= count);
    assert(bytes.skip(72) =~= records);
    strings_encoded_and_decoded(transaction.encrypted_records, proof);
}

/// A transaction that is written and read back is the same transaction.
pub proof fn transaction_written_and_read<P: Wire>(transaction: TransactionView<P>)
    requires
        spec_transaction_wf(transaction),
    ensures
        spec_read_transaction::<P>(spec_transaction_bytes(transaction)) == Some(transaction),
{
    let proof = transaction.proof.spec_encode();
    let after_kernel = transaction.ledger_digest.spec_encode() + (
    transaction.inner_circuit_id.spec_encode() + (spec_u64_to_le_bytes(
        transaction.encrypted_records.len() as u64,
    ) + (spec_encode_strings(transaction.encrypted_records) + proof)));
    kernel_written_and_read(transaction.kernel, after_kernel);
    body_written_and_read(transaction, after_kernel);
    assert(proof.take(P::spec_size() as int) =~= proof);
}

impl<P: Wire> Transaction<P> {
    /// Returns the byte form of the transaction.
    pub fn to_bytes_le(&self) -> (r: Vec<u8>)
        ensures
            r@ == spec_transaction_bytes(self@),
            spec_transaction_wf(self@),
            spec_read_transaction::<P>(r@) == Some(self@),
    {
        proof {
            use_type_invariant(self.ledger_digest);
            use_type_invariant(self.inner_circuit_id);
        }
        let mut bytes: Vec<u8> = Vec::new();
        self.kernel.encode(&mut bytes);
        self.ledger_digest.encode(&mut bytes);
        self.inner_circuit_id.encode(&mut bytes);
        let count: u64 = self.encrypted_records.len() as u64;
        encode_u64(count, &mut bytes);
        let ghost head = bytes@;
        let ghost views = encrypted_record_views(self.encrypted_records@);
        let mut index: usize = 0;
        assert(views.take(0) =~= Seq::<Seq<u8>>::empty());
        assert(bytes@ =~= head + spec_encode_strings(views.take(0)));
        while index < self.encrypted_records.len()
            invariant
                index <= self.encrypted_records.len(),
                views == encrypted_record_views(self.encrypted_records@),
                bytes@ == head + spec_encode_strings(views.take(index as int)),
                strings_wf(views.take(index as int)),
            decreases self.encrypted_records.len() - index,
        {
            encode_string(&self.encrypted_records[index].bytes, &mut bytes);
            proof {
                let next = views.take(index + 1);
                assert(next.drop_last() =~= views.take(index as int));
                assert(next.last() == self.encrypted_records[index as int]@);
                assert(bytes@ =~= head + spec_encode_strings(next));
                assert forall|i: int| 0 <= i < next.len() implies (#[trigger] next[i]).len()
                    <= u64::MAX by {
                    if i < index {
                        assert(views.take(index as int)[i] == next[i]);
                    }
                }
            }
            index += 1;
        }
        assert(views.take(index as int) =~= views);
        self.proof.encode(&mut bytes);
        proof {
            assert(self.encrypted_records.len() <= usize::MAX);
            assert(bytes@ =~= spec_transaction_bytes(self@));
            transaction_written_and_read(self@);
        }
        bytes
    }

    /// Reads a transaction from the byte form that the bytes begin with, or
    /// reports `Parse` where they begin with the byte form of none.
    #[verifier::loop_isolation(false)]
    pub fn read_le(bytes: &[u8]) -> (r: Result<Transaction<P>, Error>)
        ensures
            match spec_read_transaction::<P>(bytes@) {
                Some(transaction) => r matches Ok(read) && read@ == transaction,
                None => r == Err::<Transaction<P>, Error>(Error::Parse),
            },
    {
        let (kernel, bytes) = match TransactionKernel::decode(bytes) {
            Some(read) => read,
            None => {
                return Err(Error::Parse);
            },
        };
        if bytes.len() < 72 {
            return Err(Error::Parse);
        }
        let ledger_digest = Field::decode(slice_subrange(bytes, 0, 32));
        let inner_circuit_id = Field::decode(slice_subrange(bytes, 32, 64));
        let count = u64_from_le_bytes(slice_subrange(bytes, 64, 72));
        let body = slice_subrange(bytes, 72, bytes.len());
        assert(body@ =~= bytes@.skip(72));
        let (ledger_digest, inner_circuit_id) = match (ledger_digest, inner_circuit_id) {
            (Some(ledger_digest), Some(inner_circuit_id)) => (ledger_digest, inner_circuit_id),
            _ => {
                return Err(Error::Parse);
            },
        };
        if count > body.len() as u64 {
            proof {
                if spec_decode_strings(body@, count as nat) is Some {
                    decode_strings_takes_bytes(body@, count as nat);
                }
            }
            return Err(Error::Parse);
        }
        let mut encrypted_records: Vec<EncryptedRecord> = Vec::new();
        let mut rest = body;
        let mut index: u64 = 0;
        while index < count
            invariant
                index <= count,
                Some((encrypted_record_views(encrypted_records@), rest@)) == spec_decode_strings(
                    body@,
                    index as nat,
                ),
            decreases count - index,
        {
            match decode_string(rest) {
                Some((string, after)) => {
                    let ghost before = encrypted_record_views(encrypted_records@);
                    encrypted_records.push(EncryptedRecord { bytes: string });
                    assert(encrypted_record_views(encrypted_records@) =~= before.push(string@));
                    rest = after;
                },
                None => {
                    proof {
                        decode_strings_fail_on(body@, (index + 1) as nat, count as nat);
                    }
                    return Err(Error::Parse);
                },
            }
            index += 1;
        }
        let size = P::size();
        if rest.len() < size {
            return Err(Error::Parse);
        }
        assert(rest@.subrange(0, size as int) =~= rest@.take(size as int));
        match P::decode(slice_subrange(rest, 0, size)) {
            Some(proof) => Ok(
                Transaction { kernel, ledger_digest, inner_circuit_id, encrypted_records, proof },
            ),
            None => Err(Error::Parse),
        }
    }
}

} // verus!
