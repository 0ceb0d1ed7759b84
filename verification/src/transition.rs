//! A state transition, and the authorization to execute it.

use crate::account::signed_by;
use crate::account::PrivateKey;
use crate::account::Signature;
use crate::error::Error;
use crate::kernel::spec_signature_message;
use crate::kernel::kernel_written_and_read;
use crate::kernel::spec_kernel_bytes;
use crate::kernel::spec_kernel_wf;
use crate::kernel::spec_read_kernel;
use crate::kernel::KernelView;
use crate::kernel::TransactionKernel;
use crate::network::field_values;
use crate::record::Record;
use crate::wire::decode_list;
use crate::wire::encode_list;
use crate::wire::items_wf;
use crate::wire::list_encoded_and_decoded;
use crate::wire::spec_decode_list;
use crate::wire::spec_encode_list;
use vstd::prelude::*;

verus! {

/// A state transition: its kernel, the records it spends and creates, and
/// for each input slot the key of a no-op record, where the slot holds one.
#[derive(Clone, Debug, PartialEq, Eq, Hash)]
pub struct StateTransition {
    pub kernel: TransactionKernel,
    pub input_records: Vec<Record>,
    pub output_records: Vec<Record>,
    pub noop_private_keys: Vec<Option<PrivateKey>>,
}

impl StateTransition {
    /// Makes a state transition of its parts.
    pub fn new(
        kernel: TransactionKernel,
        input_records: Vec<Record>,
        output_records: Vec<Record>,
        noop_private_keys: Vec<Option<PrivateKey>>,
    ) -> (r: StateTransition)
        ensures
            r.kernel@ == kernel@,
            r.input_records@ == input_records@,
            r.output_records@ == output_records@,
            r.noop_private_keys@ == noop_private_keys@,
    {
        StateTransition { kernel, input_records, output_records, noop_private_keys }
    }

    /// Returns the kernel.
    pub fn kernel(&self) -> (r: &TransactionKernel)
        ensures
            r@ == self.kernel@,
    {
        &self.kernel
    }

    /// Returns, by input slot, the key of the slot's no-op record.
    pub fn noop_private_keys(&self) -> (r: &Vec<Option<PrivateKey>>)
        ensures
            r@ == self.noop_private_keys@,
    {
        &self.noop_private_keys
    }
}

/// The authorization to execute a state transition: the transition's kernel
/// and records, and one signature on the kernel for each input slot.
#[derive(Clone, Debug, PartialEq, Eq, Hash)]
pub struct TransactionAuthorization {
    pub kernel: TransactionKernel,
    pub input_records: Vec<Record>,
    pub output_records: Vec<Record>,
    pub signatures: Vec<Signature>,
}

/// An authorization as plain values.
pub struct AuthorizationView {
    /// The kernel.
    pub kernel: KernelView,
    /// The records that are spent.
    pub input_records: Seq<Record>,
    /// The records that are created.
    pub output_records: Seq<Record>,
    /// The signatures, by input slot.
    pub signatures: Seq<Signature>,
}

impl View for TransactionAuthorization {
    type V = AuthorizationView;

    open spec fn view(&self) -> AuthorizationView {
        AuthorizationView {
            kernel: self.kernel@,
            input_records: self.input_records@,
            output_records: self.output_records@,
            signatures: self.signatures@,
        }
    }
}

/// Every part of the authorization can be written and read back.
pub open spec fn spec_authorization_wf(authorization: AuthorizationView) -> bool {
    &&& spec_kernel_wf(authorization.kernel)
    &&& items_wf(authorization.input_records)
    &&& items_wf(authorization.output_records)
    &&& authorization.input_records.len() <= u64::MAX
    &&& authorization.output_records.len() <= u64::MAX
    &&& authorization.signatures.len() <= u64::MAX
}

/// The byte form of an authorization: the kernel, the input records, the
/// output records and the signatures, each list behind the number of its
/// values.
pub open spec fn spec_authorization_bytes(authorization: AuthorizationView) -> Seq<u8> {
    spec_kernel_bytes(authorization.kernel) + (spec_encode_list(authorization.input_records) + (
    spec_encode_list(authorization.output_records) + spec_encode_list(
        authorization.signatures,
    )))
}

/// The authorization that bytes begin with the byte form of, or `None` where
/// they begin with the byte form of none.
pub open spec fn spec_read_authorization(bytes: Seq<u8>) -> Option<AuthorizationView> {
    match spec_read_kernel(bytes) {
        None => None,
        Some((kernel, bytes)) => match spec_decode_list::<Record>(bytes) {
            None => None,
            Some((input_records, bytes)) => match spec_decode_list::<Record>(bytes) {
                None => None,
                Some((output_records, bytes)) => match spec_decode_list::<Signature>(bytes) {
                    None => None,
                    Some((signatures, bytes)) => Some(
                        AuthorizationView { kernel, input_records, output_records, signatures },
                    ),
                },
            },
        },
    }
}

/// An authorization that is written and read back is the same
/// authorization.
pub proof fn authorization_written_and_read(authorization: AuthorizationView)
    requires
        spec_authorization_wf(authorization),
    ensures
        spec_read_authorization(spec_authorization_bytes(authorization)) == Some(authorization),
{
    let signatures = spec_encode_list(authorization.signatures);
    let output_records = spec_encode_list(authorization.output_records) + signatures;
    let input_records = spec_encode_list(authorization.input_records) + output_records;
    kernel_written_and_read(authorization.kernel, input_records);
    list_encoded_and_decoded(authorization.input_records, output_records);
    list_encoded_and_decoded(authorization.output_records, signatures);
    list_encoded_and_decoded(authorization.signatures, Seq::<u8>::empty());
    assert(signatures + Seq::<u8>::empty() =~= signatures);
}

impl TransactionAuthorization {
    /// Returns the byte form of the authorization.
    pub fn to_bytes_le(&self) -> (r: Vec<u8>)
        ensures
            r@ == spec_authorization_bytes(self@),
            spec_authorization_wf(self@),
            spec_read_authorization(r@) == Some(self@),
    {
        let mut bytes: Vec<u8> = Vec::new();
        self.kernel.encode(&mut bytes);
        let ghost first = bytes@;
        encode_list(&self.input_records, &mut bytes);
        let ghost second = bytes@;
        encode_list(&self.output_records, &mut bytes);
        let ghost third = bytes@;
        encode_list(&self.signatures, &mut bytes);
        proof {
            let view = self@;
            assert(first =~= spec_kernel_bytes(view.kernel));
            assert(bytes@ =~= spec_authorization_bytes(view));
            assert(self.input_records.len() <= usize::MAX);
            assert(self.output_records.len() <= usize::MAX);
            assert(self.signatures.len() <= usize::MAX);
            authorization_written_and_read(view);
        }
        bytes
    }

    /// Reads an authorization from the byte form that the bytes begin with,
    /// or reports `Parse` where they begin with the byte form of none.
    pub fn read_le(bytes: &[u8]) -> (r: Result<TransactionAuthorization, Error>)
        ensures
            match spec_read_authorization(bytes@) {
                Some(authorization) => r matches Ok(read) && read@ == authorization,
                None => r == Err::<TransactionAuthorization, Error>(Error::Parse),
            },
    {
        let (kernel, bytes) = match TransactionKernel::decode(bytes) {
            Some(read) => read,
            None => {
                return Err(Error::Parse);
            },
        };
        let (input_records, bytes) = match decode_list::<Record>(bytes) {
            Some(read) => read,
            None => {
                return Err(Error::Parse);
            },
        };
        let (output_records, bytes) = match decode_list::<Record>(bytes) {
            Some(read) => read,
            None => {
                return Err(Error::Parse);
            },
        };
        let (signatures, _) = match decode_list::<Signature>(bytes) {
            Some(read) => read,
            None => {
                return Err(Error::Parse);
            },
        };
        Ok(TransactionAuthorization { kernel, input_records, output_records, signatures })
    }

    /// Makes the authorization of a state transition from its signatures.
    pub fn from(state: &StateTransition, signatures: Vec<Signature>) -> (r: TransactionAuthorization)
        ensures
            r.kernel@ == state.kernel@,
            r.input_records@ == state.input_records@,
            r.output_records@ == state.output_records@,
            r.signatures@ == signatures@,
    {
        TransactionAuthorization {
            kernel: state.kernel.copy(),
            input_records: state.input_records.clone(),
            output_records: state.output_records.clone(),
            signatures,
        }
    }
}

/// The number of slots of the list that hold no key of their own.
pub open spec fn count_spenders(slots: Seq<Option<PrivateKey>>) -> nat
    decreases slots.len(),
{
    if slots.len() == 0 {
        0
    } else {
        count_spenders(slots.drop_last()) + if slots.last() is None {
            1nat
        } else {
            0nat
        }
    }
}

/// The input slots that are signed for: the first `num_input_records` of the
/// transition, or all of them where there are fewer.
pub open spec fn signing_slots(
    noop_private_keys: Seq<Option<PrivateKey>>,
    num_input_records: usize,
) -> Seq<Option<PrivateKey>> {
    if num_input_records <= noop_private_keys.len() {
        noop_private_keys.take(num_input_records as int)
    } else {
        noop_private_keys
    }
}

/// The key that signs for a slot: the slot's own key where it holds one,
/// else the next of the supplied keys that no earlier slot has taken.
pub open spec fn slot_key(
    slots: Seq<Option<PrivateKey>>,
    private_keys: Seq<PrivateKey>,
    slot: int,
) -> PrivateKey {
    match slots[slot] {
        Some(key) => key,
        None => private_keys[count_spenders(slots.take(slot)) as int],
    }
}

/// The number of slots without a key of their own does not fall along the
/// list.
proof fn count_spenders_is_monotonic(slots: Seq<Option<PrivateKey>>, first: int, second: int)
    requires
        0 <= first <= second <= slots.len(),
    ensures
        count_spenders(slots.take(first)) <= count_spenders(slots.take(second)),
    decreases second - first,
{
    if first < second {
        assert(slots.take(second).drop_last() =~= slots.take(second - 1));
        count_spenders_is_monotonic(slots, first, second - 1);
    }
}

/// The supplied keys are taken in the order of the list, each once: of two
/// slots without a key of their own, the later one takes a later key.
pub proof fn supplied_keys_are_taken_in_order(
    slots: Seq<Option<PrivateKey>>,
    first: int,
    second: int,
)
    requires
        0 <= first < second < slots.len(),
        slots[first] is None,
    ensures
        count_spenders(slots.take(first)) < count_spenders(slots.take(second)),
{
    assert(slots.take(first + 1).drop_last() =~= slots.take(first));
    assert(slots.take(first + 1).last() == slots[first]);
    count_spenders_is_monotonic(slots, first + 1, second);
}

/// Returns the key that signs for each input slot, in slot order, or
/// `MalformedAuthorization` where fewer keys are supplied than there are
/// slots without a key of their own.
pub fn resolve_keys(
    noop_private_keys: &Vec<Option<PrivateKey>>,
    private_keys: &Vec<PrivateKey>,
    num_input_records: usize,
) -> (r: Result<Vec<PrivateKey>, Error>)
    ensures
        r is Err <==> private_keys.len() < count_spenders(
            signing_slots(noop_private_keys@, num_input_records),
        ),
        r matches Err(e) ==> e == Error::MalformedAuthorization,
        r matches Ok(keys) ==> keys.len() == signing_slots(
            noop_private_keys@,
            num_input_records,
        ).len() && forall|i: int|
            0 <= i < keys.len() ==> #[trigger] keys[i] == slot_key(
                signing_slots(noop_private_keys@, num_input_records),
                private_keys@,
                i,
            ),
{
    let ghost slots = signing_slots(noop_private_keys@, num_input_records);
    let count = if num_input_records <= noop_private_keys.len() {
        num_input_records
    } else {
        noop_private_keys.len()
    };
    let mut keys: Vec<PrivateKey> = Vec::new();
    // The cursor over the supplied keys.
    let mut cursor: usize = 0;
    let mut slot: usize = 0;
    while slot < count
        invariant
            slot <= count,
            count == slots.len(),
            slots == signing_slots(noop_private_keys@, num_input_records),
            forall|i: int| 0 <= i < count ==> slots[i] == noop_private_keys[i],
            cursor == count_spenders(slots.take(slot as int)),
            cursor <= private_keys.len(),
            keys.len() == slot,
            forall|i: int|
                0 <= i < slot ==> #[trigger] keys[i] == slot_key(slots, private_keys@, i),
        decreases count - slot,
    {
        assert(slots.take(slot + 1).drop_last() =~= slots.take(slot as int));
        match noop_private_keys[slot] {
            Some(noop_private_key) => {
                keys.push(noop_private_key);
            },
            None => {
                if cursor >= private_keys.len() {
                    proof {
                        count_spenders_is_monotonic(slots, slot + 1, slots.len() as int);
                        assert(slots.take(slots.len() as int) =~= slots);
                    }
                    return Err(Error::MalformedAuthorization);
                }
                keys.push(private_keys[cursor]);
                cursor += 1;
            },
        }
        slot += 1;
    }
    assert(slots.take(slot as int) =~= slots);
    Ok(keys)
}

/// The authorization is one of the state transition: it carries the
/// transition's kernel and records, and for each input slot that is signed
/// for a signature of the slot's key on the kernel's message.
pub open spec fn spec_authorized(
    state: StateTransition,
    private_keys: Seq<PrivateKey>,
    num_input_records: usize,
    authorization: TransactionAuthorization,
) -> bool {
    let slots = signing_slots(state.noop_private_keys@, num_input_records);
    &&& authorization.kernel@ == state.kernel@
    &&& authorization.input_records@ == state.input_records@
    &&& authorization.output_records@ == state.output_records@
    &&& authorization.signatures.len() == slots.len()
    &&& forall|i: int|
        0 <= i < slots.len() ==> signed_by(
            (#[trigger] authorization.signatures[i])@,
            slot_key(slots, private_keys, i)@.seed,
            field_values(spec_signature_message(state.kernel@)),
        )
}

} // verus!
