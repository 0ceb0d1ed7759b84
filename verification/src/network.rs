//! The network's fixed hash functions and its generator, on plain field and
//! group elements.

use crate::field::Field;
use crate::field::Group;
use crate::field::Scalar;
use snarkvm_console_account::Field as NativeField;
use snarkvm_console_account::Scalar as NativeScalar;
use snarkvm_console_account::ToBits;
use snarkvm_console_network::Network;
use snarkvm_console_network::TestnetV0;
use snarkvm_curves::edwards_bls12::Fq;
use snarkvm_curves::edwards_bls12::Fr;
use snarkvm_fields::PrimeField;
use snarkvm_utilities::BigInteger256;
use vstd::prelude::*;

verus! {

/// The integers that a list of base-field elements stands for.
pub open spec fn field_values(fields: Seq<Field>) -> Seq<nat> {
    fields.map_values(|f: Field| f@)
}

/// Every element of the list is reduced.
pub open spec fn fields_wf(fields: Seq<Field>) -> bool {
    forall|i: int| 0 <= i < fields.len() ==> (#[trigger] fields[i]).wf()
}

/// Establishes that every element of a list is reduced, as every element
/// that a program holds is.
pub fn fields_are_wf(fields: &Vec<Field>)
    ensures
        fields_wf(fields@),
{
    let mut index: usize = 0;
    while index < fields.len()
        invariant
            index <= fields.len(),
            forall|i: int| 0 <= i < index ==> (#[trigger] fields[i]).wf(),
        decreases fields.len() - index,
    {
        let field = fields[index];
        proof {
            use_type_invariant(field);
        }
        index += 1;
    }
}

/// The x-coordinate of the point that the network's Poseidon hash with rate 2
/// maps a list of base-field elements to, or `None` where the hash fails: what
/// `Network::hash_to_group_psd2` returns.
pub uninterp spec fn spec_hash_to_group_psd2(input: Seq<nat>) -> Option<nat>;

/// The scalar that the network's Poseidon hash with rate 4 maps a list of
/// base-field elements to, or `None` where the hash fails: what
/// `Network::hash_to_scalar_psd4` returns.
pub uninterp spec fn spec_hash_to_scalar_psd4(input: Seq<nat>) -> Option<nat>;

/// The x-coordinate of the network's generator times a scalar: what
/// `Network::g_scalar_multiply` returns.
pub uninterp spec fn spec_g_scalar_multiply(scalar: nat) -> nat;

/// The base-field element that the network's BHP hash with 1024-bit input
/// blocks maps a list of bits to, or `None` where the hash fails: what
/// `Network::hash_bhp1024` returns.
pub uninterp spec fn spec_hash_bhp1024(input: Seq<bool>) -> Option<nat>;

/// The number of bits of a base-field element.
pub open spec fn field_size_in_bits() -> nat {
    253
}

/// The bits of a base-field element, least significant first.
pub open spec fn spec_field_bits_le(value: nat) -> Seq<bool> {
    Seq::new(field_size_in_bits(), |i: int| (value / vstd::arithmetic::power2::pow2(i as nat)) % 2 == 1)
}

/// The bits of a list of base-field elements: those of the first element, then
/// those of the second, and so on.
pub open spec fn spec_fields_bits_le(values: Seq<nat>) -> Seq<bool>
    decreases values.len(),
{
    if values.len() == 0 {
        Seq::empty()
    } else {
        spec_fields_bits_le(values.drop_last()) + spec_field_bits_le(values.last())
    }
}

/// Hashes base-field elements to a point of the subgroup.
///
/// Calls `Network::hash_to_group_psd2` of `TestnetV0`, a function of its
/// input alone, which fails on an empty input or where the curve encoding of
/// the digest fails; its point lies in the prime-order subgroup.
#[verifier::external_body]
pub(crate) fn hash_to_group_psd2(input: &Vec<Field>) -> (r: Option<Group>)
    requires
        fields_wf(input@),
    ensures
        r is Some <==> spec_hash_to_group_psd2(field_values(input@)) is Some,
        r matches Some(g) ==> g.wf() && Some(g@) == spec_hash_to_group_psd2(field_values(input@)),
{
    let native: Vec<NativeField<TestnetV0>> =
        input.iter().map(|f| NativeField::new(Fq::from_bigint(BigInteger256(f.limbs)).unwrap_or_default())).collect();
    match TestnetV0::hash_to_group_psd2(&native) {
        Ok(point) => Some(Group { x: Field { limbs: point.to_x_coordinate().to_bigint().0 } }),
        Err(_) => None,
    }
}

/// Hashes base-field elements to a scalar.
///
/// Calls `Network::hash_to_scalar_psd4` of `TestnetV0`, a function of its
/// input alone.
#[verifier::external_body]
pub(crate) fn hash_to_scalar_psd4(input: &Vec<Field>) -> (r: Option<Scalar>)
    requires
        fields_wf(input@),
    ensures
        r is Some <==> spec_hash_to_scalar_psd4(field_values(input@)) is Some,
        r matches Some(s) ==> s.wf() && Some(s@) == spec_hash_to_scalar_psd4(field_values(input@)),
{
    let native: Vec<NativeField<TestnetV0>> =
        input.iter().map(|f| NativeField::new(Fq::from_bigint(BigInteger256(f.limbs)).unwrap_or_default())).collect();
    match TestnetV0::hash_to_scalar_psd4(&native) {
        Ok(scalar) => Some(Scalar { limbs: scalar.to_bigint().0 }),
        Err(_) => None,
    }
}

/// The generator times a scalar.
///
/// Calls `Network::g_scalar_multiply` of `TestnetV0`, which adds up the
/// generator's powers of two that the scalar's bits select.
#[verifier::external_body]
pub(crate) fn g_scalar_multiply(scalar: &Scalar) -> (r: Group)
    requires
        scalar.wf(),
    ensures
        r.wf(),
        r@ == spec_g_scalar_multiply(scalar@),
{
    let s = NativeScalar::<TestnetV0>::new(Fr::from_bigint(BigInteger256(scalar.limbs)).unwrap_or_default());
    Group { x: Field { limbs: TestnetV0::g_scalar_multiply(&s).to_x_coordinate().to_bigint().0 } }
}

/// The bits of a list of base-field elements.
///
/// Calls `ToBits::to_bits_le` on the list, which writes the 253 bits of each
/// element in turn, least significant first.
#[verifier::external_body]
pub(crate) fn fields_to_bits_le(input: &Vec<Field>) -> (r: Vec<bool>)
    requires
        fields_wf(input@),
    ensures
        r@ == spec_fields_bits_le(field_values(input@)),
{
    let native: Vec<NativeField<TestnetV0>> =
        input.iter().map(|f| NativeField::new(Fq::from_bigint(BigInteger256(f.limbs)).unwrap_or_default())).collect();
    native.to_bits_le()
}

/// Hashes bits to a base-field element.
///
/// Calls `Network::hash_bhp1024` of `TestnetV0`, a function of its input
/// alone.
#[verifier::external_body]
pub(crate) fn hash_bhp1024(input: &Vec<bool>) -> (r: Option<Field>)
    ensures
        r is Some <==> spec_hash_bhp1024(input@) is Some,
        r matches Some(f) ==> f.wf() && Some(f@) == spec_hash_bhp1024(input@),
{
    match TestnetV0::hash_bhp1024(input) {
        Ok(digest) => Some(Field { limbs: digest.to_bigint().0 }),
        Err(_) => None,
    }
}

} // verus!
