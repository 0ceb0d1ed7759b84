//! Records, and what an execution derives from them.

use crate::account::Address;
use crate::field::Field;
use crate::field::Scalar;
use crate::wire::array32;
use crate::wire::encode_array32;
use crate::wire::encode_u64;
use crate::wire::spec_array32;
use crate::wire::Wire;
use vstd::bytes::spec_u64_from_le_bytes;
use vstd::bytes::spec_u64_to_le_bytes;
use vstd::bytes::u64_from_le_bytes;
use vstd::prelude::*;
use vstd::slice::slice_subrange;

verus! {

/// A unit of value and state, spent as an input or created as an output.
#[derive(Clone, Copy, Debug, PartialEq, Eq, Hash)]
pub struct Record {
    pub owner: Address,
    pub is_dummy: bool,
    pub value: u64,
    pub payload: [u8; 32],
    pub program_id: Field,
    pub commitment: Field,
}

impl Record {
    /// Makes a record of its parts.
    pub fn new(
        owner: Address,
        is_dummy: bool,
        value: u64,
        payload: [u8; 32],
        program_id: Field,
        commitment: Field,
    ) -> (r: Record)
        ensures
            r == (Record { owner, is_dummy, value, payload, program_id, commitment }),
    {
        Record { owner, is_dummy, value, payload, program_id, commitment }
    }

    /// Returns whether the record is a dummy, which stands in no ledger.
    pub fn is_dummy(&self) -> (r: bool)
        ensures
            r == self.is_dummy,
    {
        self.is_dummy
    }

    /// Returns the commitment of the record.
    pub fn commitment(&self) -> (r: Field)
        ensures
            r == self.commitment,
    {
        self.commitment
    }
}

/// An encrypted record as plain values: its bytes.
pub type EncryptedRecordView = Seq<u8>;

/// A record as its owner alone can read it.
#[derive(Clone, Debug, PartialEq, Eq, Hash)]
pub struct EncryptedRecord {
    pub bytes: Vec<u8>,
}

impl View for EncryptedRecord {
    type V = EncryptedRecordView;

    open spec fn view(&self) -> EncryptedRecordView {
        self.bytes@
    }
}

impl EncryptedRecord {
    /// An encrypted record with the same bytes.
    pub fn copy(&self) -> (r: EncryptedRecord)
        ensures
            r@ == self@,
    {
        EncryptedRecord { bytes: self.bytes.clone() }
    }
}

/// The bytes of each encrypted record of a list.
pub open spec fn encrypted_record_views(records: Seq<EncryptedRecord>) -> Seq<Seq<u8>> {
    records.map_values(|record: EncryptedRecord| record@)
}

/// The proof that one program ran correctly on the local data, for the record
/// at one position.
#[derive(Clone, Debug, PartialEq, Eq, Hash)]
pub struct Execution {
    pub index: usize,
    pub program_id: Field,
    pub proof: Vec<u8>,
}

/// What binds the kernel and the records of one transition together for the
/// programs that run on it.
#[derive(Clone, Debug, PartialEq, Eq, Hash)]
pub struct LocalData {
    pub root: Field,
    pub leaf_randomizers: Vec<Scalar>,
}

impl LocalData {
    /// Returns the root of the local data.
    pub fn root(&self) -> (r: Field)
        ensures
            r == self.root,
    {
        self.root
    }

    /// Returns the randomizers of the leaves.
    pub fn leaf_randomizers(&self) -> (r: &Vec<Scalar>)
        ensures
            r@ == self.leaf_randomizers@,
    {
        &self.leaf_randomizers
    }
}

/// The byte of a flag.
pub open spec fn spec_flag_byte(flag: bool) -> u8 {
    if flag {
        1
    } else {
        0
    }
}

impl Wire for Record {
    open spec fn spec_size() -> nat {
        137
    }

    open spec fn wire_wf(self) -> bool {
        self.owner.wire_wf() && self.program_id.wf() && self.commitment.wf()
    }

    open spec fn spec_encode(self) -> Seq<u8> {
        self.owner.spec_encode() + seq![spec_flag_byte(self.is_dummy)] + spec_u64_to_le_bytes(
            self.value,
        ) + self.payload@ + self.program_id.spec_encode() + self.commitment.spec_encode()
    }

    open spec fn spec_decode(bytes: Seq<u8>) -> Option<Record> {
        match (
            Address::spec_decode(bytes.subrange(0, 32)),
            Field::spec_decode(bytes.subrange(73, 105)),
            Field::spec_decode(bytes.subrange(105, 137)),
        ) {
            (Some(owner), Some(program_id), Some(commitment)) => if bytes[32] <= 1 {
                Some(
                    Record {
                        owner,
                        is_dummy: bytes[32] == 1,
                        value: spec_u64_from_le_bytes(bytes.subrange(33, 41)),
                        payload: spec_array32(bytes.subrange(41, 73)),
                        program_id,
                        commitment,
                    },
                )
            } else {
                None
            },
            _ => None,
        }
    }

    proof fn encoded_and_decoded(self) {
        vstd::bytes::lemma_auto_spec_u64_to_from_le_bytes();
        self.owner.encoded_and_decoded();
        self.program_id.encoded_and_decoded();
        self.commitment.encoded_and_decoded();
        let bytes = self.spec_encode();
        assert(bytes.subrange(0, 32) =~= self.owner.spec_encode());
        assert(bytes.subrange(33, 41) =~= spec_u64_to_le_bytes(self.value));
        assert(bytes.subrange(41, 73) =~= self.payload@);
        assert(bytes.subrange(73, 105) =~= self.program_id.spec_encode());
        assert(bytes.subrange(105, 137) =~= self.commitment.spec_encode());
        assert(spec_array32(self.payload@)@ =~= self.payload@);
        assert(spec_array32(self.payload@) == self.payload);
    }

    fn size() -> (r: usize) {
        137
    }

    fn encode(&self, out: &mut Vec<u8>) {
        proof {
            use_type_invariant(self.program_id);
            use_type_invariant(self.commitment);
        }
        self.owner.encode(out);
        out.push(if self.is_dummy { 1 } else { 0 });
        encode_u64(self.value, out);
        encode_array32(&self.payload, out);
        self.program_id.encode(out);
        self.commitment.encode(out);
        assert(out@ =~= old(out)@ + self.spec_encode());
    }

    fn decode(bytes: &[u8]) -> (r: Option<Record>) {
        if bytes.len() != 137 {
            return None;
        }
        let owner = match Address::decode(slice_subrange(bytes, 0, 32)) {
            Some(owner) => owner,
            None => {
                return None;
            },
        };
        let program_id = match Field::decode(slice_subrange(bytes, 73, 105)) {
            Some(program_id) => program_id,
            None => {
                return None;
            },
        };
        let commitment = match Field::decode(slice_subrange(bytes, 105, 137)) {
            Some(commitment) => commitment,
            None => {
                return None;
            },
        };
        if bytes[32] > 1 {
            return None;
        }
        Some(
            Record {
                owner,
                is_dummy: bytes[32] == 1,
                value: u64_from_le_bytes(slice_subrange(bytes, 33, 41)),
                payload: array32(slice_subrange(bytes, 41, 73)),
                program_id,
                commitment,
            },
        )
    }
}

} // verus!
