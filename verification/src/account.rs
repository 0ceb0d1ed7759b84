//! Accounts: the private key that spends and the address that receives.

use crate::field::Field;
use crate::field::Group;
use crate::field::Scalar;
use crate::network::field_values;
use crate::network::fields_are_wf;
use crate::network::fields_wf;
use crate::wire::Wire;
use crate::wire::decode_limbs;
use crate::wire::encode_limbs;
use crate::wire::limbs_decoded_and_encoded;
use crate::wire::limbs_encoded_and_decoded;
use crate::wire::spec_decode_limbs;
use crate::wire::spec_encode_limbs;
use rand::rngs::StdRng;
use snarkvm_console_account::Address as NativeAddress;
use snarkvm_console_account::Field as NativeField;
use snarkvm_console_account::Group as NativeGroup;
use snarkvm_console_account::PrivateKey as NativePrivateKey;
use snarkvm_console_account::Signature as NativeSignature;
use snarkvm_console_account::Zero;
use snarkvm_console_network::TestnetV0;
use snarkvm_curves::edwards_bls12::Fq;
use snarkvm_fields::PrimeField;
use snarkvm_utilities::BigInteger256;
use snarkvm_utilities::FromBytes;
use snarkvm_utilities::ToBytes;
use vstd::prelude::*;
use vstd::slice::slice_subrange;

verus! {

/// The generator of random numbers that signing and proving draw from,
/// `rand::rngs::StdRng`: carried through as it is.
#[verifier::external_type_specification]
#[verifier::external_body]
pub struct ExStdRng(StdRng);

/// An account address: a point of the subgroup.
#[derive(Clone, Copy, Debug, PartialEq, Eq, Hash)]
pub struct Address {
    address: Group,
}

impl Address {
    /// The address is a point of the subgroup.
    pub closed spec fn wf(self) -> bool {
        self.address.wf()
    }

    /// The x-coordinate of the address, as an integer.
    pub closed spec fn view(self) -> nat {
        self.address@
    }

    /// The point that the address is, as a value of specifications.
    pub closed spec fn spec_group(self) -> Group {
        self.address
    }

    /// The address that a point is.
    pub closed spec fn spec_new(address: Group) -> Address {
        Address { address }
    }

    /// Initializes a new address.
    pub fn new(address: Group) -> (r: Address)
        ensures
            r == Address::spec_new(address),
            r.spec_group() == address,
            r@ == address@,
    {
        Address { address }
    }

    /// The point that the address is.
    pub fn to_group(&self) -> (r: Group)
        ensures
            r == self.spec_group(),
            r@ == self@,
            r.wf(),
    {
        proof {
            use_type_invariant(self.address);
        }
        self.address
    }

    /// The x-coordinate of the address.
    pub fn to_x_coordinate(&self) -> (r: Field)
        ensures
            r@ == self@,
            r.wf(),
    {
        self.address.to_x_coordinate()
    }
}

/// An account private key as plain integers.
pub struct PrivateKeyView {
    /// The account seed.
    pub seed: nat,
    /// The secret key of the verifiable random function.
    pub sk_vrf: nat,
}

/// An account private key: the seed that the signing keys derive from, and the
/// secret key under which serial numbers are made.
#[derive(Clone, Copy, Debug, PartialEq, Eq, Hash)]
pub struct PrivateKey {
    seed: Field,
    sk_vrf: Scalar,
}

impl PrivateKey {
    /// The key as plain integers.
    pub closed spec fn view(self) -> PrivateKeyView {
        PrivateKeyView { seed: self.seed@, sk_vrf: self.sk_vrf@ }
    }

    /// Makes a private key of its seed and its secret key for serial numbers.
    pub fn new(seed: Field, sk_vrf: Scalar) -> (r: PrivateKey)
        ensures
            r@ == (PrivateKeyView { seed: seed@, sk_vrf: sk_vrf@ }),
    {
        PrivateKey { seed, sk_vrf }
    }

    /// The account seed.
    pub fn seed(&self) -> (r: Field)
        ensures
            r@ == self@.seed,
            r.wf(),
    {
        proof {
            use_type_invariant(self.seed);
        }
        self.seed
    }

    /// The secret key under which serial numbers are made.
    pub fn sk_vrf(&self) -> (r: Scalar)
        ensures
            r@ == self@.sk_vrf,
            r.wf(),
    {
        proof {
            use_type_invariant(self.sk_vrf);
        }
        self.sk_vrf
    }
}

/// The x-coordinate of the address of the account with the given seed, or
/// `None` where the derivation fails. The name stands for two calls in a row,
/// each a function of its argument alone: `PrivateKey::try_from`, which makes
/// the private key of the seed, and `Address::try_from`, which makes the
/// address of that key.
pub uninterp spec fn spec_address_of_seed(seed: nat) -> Option<nat>;

/// Whether the bytes are those of a signature of the address on the message:
/// what `Signature::verify` returns for the signature that the bytes stand
/// for, and `false` where they stand for none.
pub uninterp spec fn spec_signature_verifies(signature: Seq<u8>, address: nat, message: Seq<nat>) -> bool;

/// An account signature, held as the limbs of its four parts: the challenge,
/// the response to it, and the x-coordinates of the signer's two public
/// keys.
#[derive(Clone, Copy, Debug, PartialEq, Eq, Hash)]
pub struct Signature {
    pub challenge: [u64; 4],
    pub response: [u64; 4],
    pub pk_sig: [u64; 4],
    pub pr_sig: [u64; 4],
}

/// Whether a signature is one of the account with the given seed on the
/// message.
pub open spec fn signed_by(signature: Seq<u8>, seed: nat, message: Seq<nat>) -> bool {
    spec_address_of_seed(seed) matches Some(address) && spec_signature_verifies(
        signature,
        address,
        message,
    )
}

/// Derives the address of the account with the given seed.
///
/// Calls `Address::try_from` on the private key of that seed, which derives
/// the compute key and from it the address; a function of the seed alone.
#[verifier::external_body]
fn address_of_seed(seed: &Field) -> (r: Option<Address>)
    requires
        seed.wf(),
    ensures
        r is Some <==> spec_address_of_seed(seed@) is Some,
        r matches Some(a) ==> Some(a@) == spec_address_of_seed(seed@),
{
    let native = NativeField::<TestnetV0>::new(Fq::from_bigint(BigInteger256(seed.limbs)).unwrap_or_default());
    let key = NativePrivateKey::try_from(native).ok()?;
    match NativeAddress::try_from(&key) {
        Ok(a) => Some(Address { address: Group { x: Field { limbs: a.to_x_coordinate().to_bigint().0 } } }),
        Err(_) => None,
    }
}

/// The largest number of field elements of a message that can be signed: the
/// network's `MAX_DATA_SIZE_IN_FIELDS`.
pub open spec fn spec_max_message_len() -> nat {
    4161
}

/// Signs a message with the private key of the given seed, and returns the
/// bytes of the signature.
///
/// Calls `PrivateKey::sign`, which refuses a message of more field elements
/// than `Network::MAX_DATA_SIZE_IN_FIELDS` and signs every other: the keys it
/// derives and the hashes it makes on the way return no error. It draws a
/// nonce from `rng` and answers the challenge that the nonce, the signer's
/// keys, the address and the message hash to. Whatever the nonce,
/// `Signature::verify` accepts the result for the signer's address and the
/// message. The bytes are those of the two scalars and of the x-coordinates
/// of the two public keys, 32 each.
#[verifier::external_body]
fn sign_with_seed(seed: &Field, message: &Vec<Field>, rng: &mut StdRng) -> (r: Option<Vec<u8>>)
    requires
        seed.wf(),
        fields_wf(message@),
    ensures
        r is Some <==> message@.len() <= spec_max_message_len(),
        r matches Some(bytes) ==> bytes@.len() == 128,
        r matches Some(bytes) ==> spec_address_of_seed(seed@) matches Some(address)
            && spec_signature_verifies(bytes@, address, field_values(message@)),
{
    let native = NativeField::<TestnetV0>::new(Fq::from_bigint(BigInteger256(seed.limbs)).unwrap_or_default());
    let key = NativePrivateKey::try_from(native).ok()?;
    let fields: Vec<NativeField<TestnetV0>> =
        message.iter().map(|f| NativeField::new(Fq::from_bigint(BigInteger256(f.limbs)).unwrap_or_default())).collect();
    key.sign(&fields, rng).ok()?.to_bytes_le().ok()
}

/// Checks the bytes of a signature against an address and a message.
///
/// Calls `Signature::verify` on the signature read from the bytes, a function
/// of the signature, the address and the message alone.
#[verifier::external_body]
fn verify_signature(signature: &Vec<u8>, address: &Address, message: &Vec<Field>) -> (r: bool)
    requires
        address.wf(),
        fields_wf(message@),
    ensures
        r == spec_signature_verifies(signature@, address@, field_values(message@)),
{
    let x = NativeField::<TestnetV0>::new(Fq::from_bigint(BigInteger256(address.address.x.limbs)).unwrap_or_default());
    let point = NativeGroup::from_x_coordinate(x).unwrap_or(NativeGroup::zero());
    let fields: Vec<NativeField<TestnetV0>> =
        message.iter().map(|f| NativeField::new(Fq::from_bigint(BigInteger256(f.limbs)).unwrap_or_default())).collect();
    match NativeSignature::<TestnetV0>::from_bytes_le(signature) {
        Ok(native) => native.verify(&NativeAddress::new(point), &fields),
        Err(_) => false,
    }
}

impl PrivateKey {
    /// Returns the address of the account, or `None` where it cannot be
    /// derived.
    pub fn to_address(&self) -> (r: Option<Address>)
        ensures
            r is Some <==> spec_address_of_seed(self@.seed) is Some,
            r matches Some(a) ==> Some(a@) == spec_address_of_seed(self@.seed),
    {
        address_of_seed(&self.seed())
    }

    /// Returns a signature of the account on the message, made with fresh
    /// randomness, or `None` where the message is longer than what can be
    /// signed. A signature that is returned is one of this account on the
    /// message.
    pub fn sign(&self, message: &Vec<Field>, rng: &mut StdRng) -> (r: Option<Signature>)
        ensures
            r is Some <==> message@.len() <= spec_max_message_len(),
            r matches Some(s) ==> signed_by(s@, self@.seed, field_values(message@)),
    {
        fields_are_wf(message);
        match sign_with_seed(&self.seed(), message, rng) {
            Some(bytes) => {
                proof {
                    signature_decoded_and_encoded(bytes@);
                }
                Signature::decode(bytes.as_slice())
            },
            None => None,
        }
    }
}

impl Signature {
    /// The bytes of the signature: those of its four parts, one after the
    /// other.
    pub open spec fn view(self) -> Seq<u8> {
        spec_encode_limbs(self.challenge@) + spec_encode_limbs(self.response@) + spec_encode_limbs(
            self.pk_sig@,
        ) + spec_encode_limbs(self.pr_sig@)
    }

    /// Makes a signature of the limbs of its four parts. Limbs that stand for
    /// no signature make one that verifies for no address and no message.
    pub fn from_limbs(
        challenge: [u64; 4],
        response: [u64; 4],
        pk_sig: [u64; 4],
        pr_sig: [u64; 4],
    ) -> (r: Signature)
        ensures
            r == (Signature { challenge, response, pk_sig, pr_sig }),
    {
        Signature { challenge, response, pk_sig, pr_sig }
    }

    /// Returns the bytes of the signature.
    pub fn to_bytes(&self) -> (r: Vec<u8>)
        ensures
            r@ == self@,
    {
        let mut bytes: Vec<u8> = Vec::new();
        self.encode(&mut bytes);
        bytes
    }

    /// Returns whether the signature is one of the address on the message.
    pub fn verify(&self, address: &Address, message: &Vec<Field>) -> (r: bool)
        ensures
            r == spec_signature_verifies(self@, address@, field_values(message@)),
    {
        proof {
            use_type_invariant(address.address);
        }
        fields_are_wf(message);
        let bytes = self.to_bytes();
        verify_signature(&bytes, address, message)
    }
}

impl Wire for Signature {
    open spec fn spec_size() -> nat {
        128
    }

    open spec fn wire_wf(self) -> bool {
        true
    }

    open spec fn spec_encode(self) -> Seq<u8> {
        self@
    }

    open spec fn spec_decode(bytes: Seq<u8>) -> Option<Signature> {
        Some(
            Signature {
                challenge: spec_decode_limbs(bytes.subrange(0, 32)),
                response: spec_decode_limbs(bytes.subrange(32, 64)),
                pk_sig: spec_decode_limbs(bytes.subrange(64, 96)),
                pr_sig: spec_decode_limbs(bytes.subrange(96, 128)),
            },
        )
    }

    proof fn encoded_and_decoded(self) {
        limbs_encoded_and_decoded(self.challenge);
        limbs_encoded_and_decoded(self.response);
        limbs_encoded_and_decoded(self.pk_sig);
        limbs_encoded_and_decoded(self.pr_sig);
        let bytes = self@;
        assert(bytes.subrange(0, 32) =~= spec_encode_limbs(self.challenge@));
        assert(bytes.subrange(32, 64) =~= spec_encode_limbs(self.response@));
        assert(bytes.subrange(64, 96) =~= spec_encode_limbs(self.pk_sig@));
        assert(bytes.subrange(96, 128) =~= spec_encode_limbs(self.pr_sig@));
    }

    fn size() -> (r: usize) {
        128
    }

    fn encode(&self, out: &mut Vec<u8>) {
        encode_limbs(&self.challenge, out);
        encode_limbs(&self.response, out);
        encode_limbs(&self.pk_sig, out);
        encode_limbs(&self.pr_sig, out);
        assert(out@ =~= old(out)@ + self@);
    }

    fn decode(bytes: &[u8]) -> (r: Option<Signature>) {
        if bytes.len() != 128 {
            return None;
        }
        Some(
            Signature {
                challenge: decode_limbs(slice_subrange(bytes, 0, 32)),
                response: decode_limbs(slice_subrange(bytes, 32, 64)),
                pk_sig: decode_limbs(slice_subrange(bytes, 64, 96)),
                pr_sig: decode_limbs(slice_subrange(bytes, 96, 128)),
            },
        )
    }
}

/// 128 bytes are the bytes of the signature that they are read as.
proof fn signature_decoded_and_encoded(bytes: Seq<u8>)
    requires
        bytes.len() == 128,
    ensures
        Signature::spec_decode(bytes) matches Some(signature) && signature@ == bytes,
{
    limbs_decoded_and_encoded(bytes.subrange(0, 32));
    limbs_decoded_and_encoded(bytes.subrange(32, 64));
    limbs_decoded_and_encoded(bytes.subrange(64, 96));
    limbs_decoded_and_encoded(bytes.subrange(96, 128));
    assert(bytes =~= bytes.subrange(0, 32) + bytes.subrange(32, 64) + bytes.subrange(64, 96)
        + bytes.subrange(96, 128));
}

impl Wire for Address {
    open spec fn spec_size() -> nat {
        32
    }

    open spec fn wire_wf(self) -> bool {
        self.wf()
    }

    open spec fn spec_encode(self) -> Seq<u8> {
        self.spec_group().spec_encode()
    }

    open spec fn spec_decode(bytes: Seq<u8>) -> Option<Address> {
        match Group::spec_decode(bytes) {
            Some(address) => Some(Address::spec_new(address)),
            None => None,
        }
    }

    proof fn encoded_and_decoded(self) {
        self.address.encoded_and_decoded();
    }

    fn size() -> (r: usize) {
        32
    }

    fn encode(&self, out: &mut Vec<u8>) {
        self.address.encode(out);
    }

    fn decode(bytes: &[u8]) -> (r: Option<Address>) {
        if bytes.len() != 32 {
            return None;
        }
        match Group::decode(bytes) {
            Some(address) => Some(Address { address }),
            None => None,
        }
    }
}

} // verus!
