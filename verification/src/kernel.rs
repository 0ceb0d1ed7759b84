//! The kernel of a transaction: what it spends, what it creates, its fee and
//! its memo.

use crate::field::Field;
use crate::network::fields_wf;
use crate::serial_number::SerialNumber;
use crate::wire::decode_list;
use crate::wire::encode_list;
use crate::wire::encode_u64;
use crate::wire::items_wf;
use crate::wire::list_encoded_and_decoded;
use crate::wire::spec_decode_list;
use crate::wire::spec_encode_list;
use vstd::bytes::spec_u64_from_le_bytes;
use vstd::bytes::spec_u64_to_le_bytes;
use vstd::bytes::u64_from_le_bytes;
use vstd::prelude::*;
use vstd::slice::slice_subrange;

verus! {

/// A kernel as plain values.
pub struct KernelView {
    /// The serial numbers of the records that are spent, by input slot.
    pub serial_numbers: Seq<SerialNumber>,
    /// The commitments of the records that are created, by output slot.
    pub commitments: Seq<Field>,
    /// The fee.
    pub fee: u64,
    /// The memo.
    pub memo: Seq<u8>,
}

/// The canonical description of a state transition.
#[derive(Clone, Debug, PartialEq, Eq, Hash)]
pub struct TransactionKernel {
    pub serial_numbers: Vec<SerialNumber>,
    pub commitments: Vec<Field>,
    pub fee: u64,
    pub memo: Vec<u8>,
}

impl View for TransactionKernel {
    type V = KernelView;

    open spec fn view(&self) -> KernelView {
        KernelView {
            serial_numbers: self.serial_numbers@,
            commitments: self.commitments@,
            fee: self.fee,
            memo: self.memo@,
        }
    }
}

/// The four field elements that stand for a serial number in a message.
pub open spec fn serial_number_fields(serial_number: SerialNumber) -> Seq<Field> {
    seq![
        Field::spec_from_scalar(serial_number.spec_output()),
        serial_number.spec_gamma().spec_x_coordinate(),
        Field::spec_from_scalar(serial_number.spec_challenge()),
        Field::spec_from_scalar(serial_number.spec_response()),
    ]
}

/// The field elements of a list of serial numbers, four for each, in order.
pub open spec fn serial_numbers_fields(serial_numbers: Seq<SerialNumber>) -> Seq<Field>
    decreases serial_numbers.len(),
{
    if serial_numbers.len() == 0 {
        Seq::empty()
    } else {
        serial_numbers_fields(serial_numbers.drop_last()) + serial_number_fields(
            serial_numbers.last(),
        )
    }
}

/// The field elements of a memo, one for each byte.
pub open spec fn memo_fields(memo: Seq<u8>) -> Seq<Field> {
    memo.map_values(|byte: u8| Field::spec_from_u64(byte as u64))
}

/// The message that authorizes a kernel: its serial numbers, its commitments,
/// its fee and its memo, as field elements in this order.
pub open spec fn spec_signature_message(kernel: KernelView) -> Seq<Field> {
    serial_numbers_fields(kernel.serial_numbers) + kernel.commitments + seq![
        Field::spec_from_u64(kernel.fee),
    ] + memo_fields(kernel.memo)
}

/// Every part of the kernel can be written and read back.
pub open spec fn spec_kernel_wf(kernel: KernelView) -> bool {
    &&& items_wf(kernel.serial_numbers)
    &&& items_wf(kernel.commitments)
    &&& kernel.serial_numbers.len() <= u64::MAX
    &&& kernel.commitments.len() <= u64::MAX
    &&& kernel.memo.len() <= u64::MAX
}

/// The byte form of a kernel: the serial numbers, the commitments, the fee
/// and the memo, each list behind the number of its values.
pub open spec fn spec_kernel_bytes(kernel: KernelView) -> Seq<u8> {
    spec_encode_list(kernel.serial_numbers) + (spec_encode_list(kernel.commitments) + (
    spec_u64_to_le_bytes(kernel.fee) + spec_encode_list(kernel.memo)))
}

/// The kernel that bytes begin with the byte form of, and the bytes that
/// follow it; `None` where they begin with the byte form of none.
pub open spec fn spec_read_kernel(bytes: Seq<u8>) -> Option<(KernelView, Seq<u8>)> {
    match spec_decode_list::<SerialNumber>(bytes) {
        None => None,
        Some((serial_numbers, bytes)) => match spec_decode_list::<Field>(bytes) {
            None => None,
            Some((commitments, bytes)) => if bytes.len() < 8 {
                None
            } else {
                match spec_decode_list::<u8>(bytes.skip(8)) {
                    None => None,
                    Some((memo, rest)) => Some(
                        (
                            KernelView {
                                serial_numbers,
                                commitments,
                                fee: spec_u64_from_le_bytes(bytes.take(8)),
                                memo,
                            },
                            rest,
                        ),
                    ),
                }
            },
        },
    }
}

/// The byte form of a kernel, with whatever follows it, is read back as the
/// kernel, and what follows is left.
pub proof fn kernel_written_and_read(kernel: KernelView, rest: Seq<u8>)
    requires
        spec_kernel_wf(kernel),
    ensures
        spec_read_kernel(spec_kernel_bytes(kernel) + rest) == Some((kernel, rest)),
{
    vstd::bytes::lemma_auto_spec_u64_to_from_le_bytes();
    let memo = spec_encode_list(kernel.memo) + rest;
    let fee = spec_u64_to_le_bytes(kernel.fee) + memo;
    let commitments = spec_encode_list(kernel.commitments) + fee;
    assert(spec_kernel_bytes(kernel) + rest =~= spec_encode_list(kernel.serial_numbers)
        + commitments);
    list_encoded_and_decoded(kernel.serial_numbers, commitments);
    list_encoded_and_decoded(kernel.commitments, fee);
    assert(fee.take(8) =~= spec_u64_to_le_bytes(kernel.fee));
    assert(fee.skip(8) =~= memo);
    list_encoded_and_decoded(kernel.memo, rest);
}

impl TransactionKernel {
    /// Makes a kernel of its parts.
    pub fn new(
        serial_numbers: Vec<SerialNumber>,
        commitments: Vec<Field>,
        fee: u64,
        memo: Vec<u8>,
    ) -> (r: TransactionKernel)
        ensures
            r@ == (KernelView {
                serial_numbers: serial_numbers@,
                commitments: commitments@,
                fee,
                memo: memo@,
            }),
    {
        TransactionKernel { serial_numbers, commitments, fee, memo }
    }

    /// A kernel with the same contents.
    pub fn copy(&self) -> (r: TransactionKernel)
        ensures
            r@ == self@,
    {
        TransactionKernel {
            serial_numbers: self.serial_numbers.clone(),
            commitments: self.commitments.clone(),
            fee: self.fee,
            memo: self.memo.clone(),
        }
    }

    /// Writes the byte form of the kernel behind what `out` holds.
    pub fn encode(&self, out: &mut Vec<u8>)
        ensures
            final(out)@ == old(out)@ + spec_kernel_bytes(self@),
            spec_kernel_wf(self@),
    {
        encode_list(&self.serial_numbers, out);
        let ghost first = out@;
        encode_list(&self.commitments, out);
        let ghost second = out@;
        encode_u64(self.fee, out);
        let ghost third = out@;
        encode_list(&self.memo, out);
        proof {
            assert(self.serial_numbers.len() <= usize::MAX);
            assert(self.commitments.len() <= usize::MAX);
            assert(self.memo.len() <= usize::MAX);
            assert(out@ =~= old(out)@ + spec_kernel_bytes(self@));
        }
    }

    /// Reads a kernel from the byte form that the bytes begin with, and
    /// returns it with the bytes that follow; `None` where the bytes begin
    /// with the byte form of no kernel.
    pub fn decode(bytes: &[u8]) -> (r: Option<(TransactionKernel, &[u8])>)
        ensures
            r is Some <==> spec_read_kernel(bytes@) is Some,
            r matches Some((kernel, rest)) ==> Some((kernel@, rest@)) == spec_read_kernel(bytes@),
    {
        let (serial_numbers, bytes) = match decode_list::<SerialNumber>(bytes) {
            Some(read) => read,
            None => {
                return None;
            },
        };
        let (commitments, bytes) = match decode_list::<Field>(bytes) {
            Some(read) => read,
            None => {
                return None;
            },
        };
        if bytes.len() < 8 {
            return None;
        }
        let fee = u64_from_le_bytes(slice_subrange(bytes, 0, 8));
        assert(bytes@.subrange(0, 8) =~= bytes@.take(8));
        let ghost after_fee = bytes@.skip(8);
        let bytes = slice_subrange(bytes, 8, bytes.len());
        assert(bytes@ =~= after_fee);
        let (memo, bytes) = match decode_list::<u8>(bytes) {
            Some(read) => read,
            None => {
                return None;
            },
        };
        Some((TransactionKernel { serial_numbers, commitments, fee, memo }, bytes))
    }

    /// Returns the message that the spenders sign.
    pub fn to_signature_message(&self) -> (r: Vec<Field>)
        ensures
            r@ == spec_signature_message(self@),
            fields_wf(r@),
    {
        let mut message: Vec<Field> = Vec::new();
        let mut index: usize = 0;
        while index < self.serial_numbers.len()
            invariant
                index <= self.serial_numbers.len(),
                message@ == serial_numbers_fields(self.serial_numbers@.take(index as int)),
                fields_wf(message@),
            decreases self.serial_numbers.len() - index,
        {
            let serial_number = self.serial_numbers[index];
            let (gamma, challenge, response) = serial_number.to_proof();
            message.push(Field::from_scalar(serial_number.output()));
            message.push(gamma.to_x_coordinate());
            message.push(Field::from_scalar(challenge));
            message.push(Field::from_scalar(response));
            proof {
                let next = self.serial_numbers@.take(index + 1);
                assert(next.drop_last() =~= self.serial_numbers@.take(index as int));
                assert(next.last() == serial_number);
            }
            index += 1;
        }
        assert(self.serial_numbers@.take(index as int) =~= self.serial_numbers@);
        let mut index: usize = 0;
        while index < self.commitments.len()
            invariant
                index <= self.commitments.len(),
                message@ == serial_numbers_fields(self.serial_numbers@) + self.commitments@.take(
                    index as int,
                ),
                fields_wf(message@),
            decreases self.commitments.len() - index,
        {
            let commitment = self.commitments[index];
            proof {
                use_type_invariant(commitment);
            }
            message.push(commitment);
            assert(self.commitments@.take(index + 1) =~= self.commitments@.take(index as int).push(
                self.commitments[index as int],
            ));
            index += 1;
        }
        assert(self.commitments@.take(index as int) =~= self.commitments@);
        message.push(Field::from_u64(self.fee));
        let ghost head = message@;
        let mut index: usize = 0;
        while index < self.memo.len()
            invariant
                index <= self.memo.len(),
                message@ == head + memo_fields(self.memo@.take(index as int)),
                fields_wf(message@),
            decreases self.memo.len() - index,
        {
            message.push(Field::from_u64(self.memo[index] as u64));
            assert(memo_fields(self.memo@.take(index + 1)) =~= memo_fields(
                self.memo@.take(index as int),
            ).push(Field::spec_from_u64(self.memo[index as int] as u64)));
            index += 1;
        }
        assert(self.memo@.take(index as int) =~= self.memo@);
        message
    }
}

} // verus!
