//! The state of a program: the plain form of a record.

use crate::account::Address;
use crate::account::PrivateKey;
use crate::error::Error;
use crate::field::Field;
use crate::field::Group;
use crate::field::Scalar;
use crate::network::field_values;
use crate::network::fields_to_bits_le;
use crate::network::hash_bhp1024;
use crate::network::spec_fields_bits_le;
use crate::network::spec_hash_bhp1024;
use crate::network::spec_hash_to_group_psd2;
use crate::serial_number::spec_prove;
use crate::serial_number::SerialNumber;
use crate::serial_number::SerialNumberView;
use vstd::prelude::*;

verus! {

/// A program state as plain integers.
pub struct StateView {
    /// The x-coordinate of the owner's address.
    pub owner: nat,
    /// The balance.
    pub balance: nat,
    /// The x-coordinate of the nonce.
    pub nonce: nat,
}

/// The state that a program holds for an owner: a balance, and a nonce that
/// makes the state's commitment its own.
#[derive(Clone, Copy, Debug, PartialEq, Eq, Hash)]
pub struct State {
    owner: Address,
    balance: u64,
    nonce: Group,
}

/// The commitment of a state under a program, a process and the state's data:
/// the hash of the bits of the six elements in this order; `None` where the
/// hash fails.
pub open spec fn spec_to_commitment(state: StateView, program: nat, process: nat, data: nat) -> Option<
    nat,
> {
    spec_hash_bhp1024(
        spec_fields_bits_le(seq![program, process, state.owner, state.balance, data, state.nonce]),
    )
}

/// The serial number of a state: that of its commitment under the key, or
/// `None` where a hash fails.
pub open spec fn spec_to_serial_number(
    state: StateView,
    sk_vrf: nat,
    program: nat,
    process: nat,
    data: nat,
    randomizer: nat,
) -> Option<SerialNumberView> {
    match spec_to_commitment(state, program, process, data) {
        None => None,
        Some(commitment) => spec_prove(sk_vrf, commitment, randomizer),
    }
}

impl State {
    /// The state as plain integers.
    pub closed spec fn view(self) -> StateView {
        StateView { owner: self.owner@, balance: self.balance as nat, nonce: self.nonce@ }
    }

    /// Makes a state of its owner, its balance and its nonce.
    pub fn new(owner: Address, balance: u64, nonce: Group) -> (r: State)
        ensures
            r@ == (StateView { owner: owner@, balance: balance as nat, nonce: nonce@ }),
    {
        State { owner, balance, nonce }
    }

    /// The owner of the state.
    pub fn owner(&self) -> (r: Address)
        ensures
            r@ == self@.owner,
    {
        self.owner
    }

    /// The balance of the state.
    pub fn balance(&self) -> (r: u64)
        ensures
            r == self@.balance,
    {
        self.balance
    }

    /// The nonce of the state.
    pub fn nonce(&self) -> (r: Group)
        ensures
            r@ == self@.nonce,
    {
        self.nonce
    }

    /// Returns the commitment of the state under a program, a process and the
    /// state's data.
    pub fn to_commitment(&self, program: Field, process: Field, data: Field) -> (r: Result<
        Field,
        Error,
    >)
        ensures
            r matches Ok(c) ==> Some(c@) == spec_to_commitment(self@, program@, process@, data@)
                && c.wf(),
            r is Err <==> spec_to_commitment(self@, program@, process@, data@) is None,
            r matches Err(e) ==> e == Error::HashToField,
    {
        proof {
            use_type_invariant(program);
            use_type_invariant(process);
            use_type_invariant(data);
        }
        let preimage = vec![
            program,
            process,
            self.owner.to_x_coordinate(),
            Field::from_u64(self.balance),
            data,
            self.nonce.to_x_coordinate(),
        ];
        assert(field_values(preimage@) =~= seq![
            program@,
            process@,
            self@.owner,
            self@.balance,
            data@,
            self@.nonce,
        ]);
        let bits = fields_to_bits_le(&preimage);
        match hash_bhp1024(&bits) {
            Some(commitment) => Ok(commitment),
            None => Err(Error::HashToField),
        }
    }

    /// Returns the serial number of the record.
    ///
    /// It is the serial number of the state's commitment under the key's
    /// secret `sk_vrf`, proved with `randomizer`.
    pub fn to_serial_number(
        &self,
        private_key: &PrivateKey,
        program: Field,
        process: Field,
        data: Field,
        randomizer: Scalar,
    ) -> (r: Result<SerialNumber, Error>)
        ensures
            r matches Ok(sn) ==> Some(sn@) == spec_to_serial_number(
                self@,
                private_key@.sk_vrf,
                program@,
                process@,
                data@,
                randomizer@,
            ),
            r is Err <==> spec_to_serial_number(
                self@,
                private_key@.sk_vrf,
                program@,
                process@,
                data@,
                randomizer@,
            ) is None,
            r == Err::<SerialNumber, Error>(Error::HashToField) <==> spec_to_commitment(
                self@,
                program@,
                process@,
                data@,
            ) is None,
            r == Err::<SerialNumber, Error>(Error::HashToGroup) <==> (spec_to_commitment(
                self@,
                program@,
                process@,
                data@,
            ) matches Some(commitment) && spec_hash_to_group_psd2(seq![commitment]) is None),
            r == Err::<SerialNumber, Error>(Error::HashToScalar) <==> (spec_to_commitment(
                self@,
                program@,
                process@,
                data@,
            ) matches Some(commitment) && spec_hash_to_group_psd2(seq![commitment]) is Some
                && spec_prove(private_key@.sk_vrf, commitment, randomizer@) is None),
            r matches Err(e) ==> e == Error::HashToField || e == Error::HashToGroup || e
                == Error::HashToScalar,
    {
        // Compute the commitment for the program state.
        let commitment = match self.to_commitment(program, process, data) {
            Ok(commitment) => commitment,
            Err(e) => {
                return Err(e);
            },
        };
        // Compute the serial number.
        SerialNumber::prove(&private_key.sk_vrf(), commitment, randomizer)
    }
}

} // verus!
