//! One-time serial numbers: the output of a verifiable random function of a
//! secret key and a record commitment, with the proof that binds the two.

use crate::error::Error;
use crate::field::scalar_modulus;
use crate::field::scalar_mul;
use crate::field::scalar_sub;
use crate::field::spec_group_add;
use crate::field::spec_group_mul;
use crate::field::spec_mul_by_cofactor;
use crate::field::Field;
use crate::field::Group;
use crate::field::Scalar;
use crate::network::g_scalar_multiply;
use crate::network::hash_to_group_psd2;
use crate::network::hash_to_scalar_psd4;
use crate::network::spec_g_scalar_multiply;
use crate::network::spec_hash_to_group_psd2;
use crate::network::spec_hash_to_scalar_psd4;
use crate::wire::Wire;
use vstd::prelude::*;
use vstd::slice::slice_subrange;

verus! {

/// A serial number as plain integers.
pub struct SerialNumberView {
    /// The serial number proper: the hash of the cleared `gamma`.
    pub output: nat,
    /// The x-coordinate of the secret key times the commitment's generator.
    pub gamma: nat,
    /// The challenge of the proof.
    pub challenge: nat,
    /// The response to the challenge.
    pub response: nat,
}

/// A serial number with its proof `(gamma, challenge, response)`.
#[derive(Clone, Copy, Debug, PartialEq, Eq, Hash)]
pub struct SerialNumber {
    output: Scalar,
    proof: (Group, Scalar, Scalar),
}

/// The response to a challenge: the randomizer less the challenge times the
/// secret key, in the scalar field.
pub open spec fn spec_response(randomizer: nat, challenge: nat, sk_vrf: nat) -> nat {
    ((randomizer - (challenge * sk_vrf) % scalar_modulus()) % (scalar_modulus() as int)) as nat
}

/// The serial number of a commitment under a secret key, proved with a
/// randomizer; `None` where one of the hashes fails.
pub open spec fn spec_prove(sk_vrf: nat, commitment: nat, randomizer: nat) -> Option<
    SerialNumberView,
> {
    match spec_hash_to_group_psd2(seq![commitment]) {
        None => None,
        Some(generator_h) => {
            let pk_vrf = spec_g_scalar_multiply(sk_vrf);
            let gamma = spec_group_mul(generator_h, sk_vrf);
            let u = spec_g_scalar_multiply(randomizer);
            let v = spec_group_mul(generator_h, randomizer);
            match spec_hash_to_scalar_psd4(seq![pk_vrf, gamma, u, v]) {
                None => None,
                Some(challenge) => match spec_hash_to_scalar_psd4(
                    seq![spec_mul_by_cofactor(gamma)],
                ) {
                    None => None,
                    Some(output) => Some(
                        SerialNumberView {
                            output,
                            gamma,
                            challenge,
                            response: spec_response(randomizer, challenge, sk_vrf),
                        },
                    ),
                },
            }
        },
    }
}

/// Whether a serial number is one of the commitment under the secret key of
/// the given public key: whether its challenge is the hash of the public
/// key, `gamma` and the two points that the response gives back, and its
/// output the hash of the cleared `gamma`.
pub open spec fn spec_verify_serial_number(
    serial_number: SerialNumberView,
    pk_vrf: nat,
    commitment: nat,
) -> bool {
    match spec_hash_to_group_psd2(seq![commitment]) {
        None => false,
        Some(generator_h) => {
            let u = spec_group_add(
                spec_group_mul(pk_vrf, serial_number.challenge),
                spec_g_scalar_multiply(serial_number.response),
            );
            let v = spec_group_add(
                spec_group_mul(serial_number.gamma, serial_number.challenge),
                spec_group_mul(generator_h, serial_number.response),
            );
            spec_hash_to_scalar_psd4(seq![pk_vrf, serial_number.gamma, u, v]) == Some(
                serial_number.challenge,
            ) && spec_hash_to_scalar_psd4(seq![spec_mul_by_cofactor(serial_number.gamma)])
                == Some(serial_number.output)
        },
    }
}

impl SerialNumber {
    /// The serial number as plain integers.
    pub closed spec fn view(self) -> SerialNumberView {
        SerialNumberView {
            output: self.output@,
            gamma: self.proof.0@,
            challenge: self.proof.1@,
            response: self.proof.2@,
        }
    }

    /// Returns the serial number of `commitment` under the secret key
    /// `sk_vrf`, with a proof made from `randomizer`.
    ///
    /// With `H` the hash of the commitment to the curve and `G` the generator,
    /// the proof's `gamma` is `sk_vrf * H`, its challenge is the hash of the
    /// x-coordinates of `sk_vrf * G`, `gamma`, `randomizer * G` and
    /// `randomizer * H`, and its response is `randomizer - challenge * sk_vrf`.
    /// The output is the hash of the x-coordinate of `gamma` times the
    /// cofactor. A hash that fails is reported, and nothing else is returned.
    pub fn prove(sk_vrf: &Scalar, commitment: Field, randomizer: Scalar) -> (r: Result<
        SerialNumber,
        Error,
    >)
        ensures
            r matches Ok(sn) ==> Some(sn@) == spec_prove(sk_vrf@, commitment@, randomizer@),
            r is Err <==> spec_prove(sk_vrf@, commitment@, randomizer@) is None,
            r == Err::<SerialNumber, Error>(Error::HashToGroup) <==> spec_hash_to_group_psd2(
                seq![commitment@],
            ) is None,
            r matches Err(e) ==> e == Error::HashToGroup || e == Error::HashToScalar,
    {
        proof {
            use_type_invariant(sk_vrf);
            use_type_invariant(commitment);
            use_type_invariant(randomizer);
        }
        // Compute the generator `H` as `HashToGroup(commitment)`.
        let input = vec![commitment];
        assert(crate::network::field_values(input@) =~= seq![commitment@]);
        let generator_h = match hash_to_group_psd2(&input) {
            Some(generator_h) => generator_h,
            None => {
                return Err(Error::HashToGroup);
            },
        };

        // Compute `pk_vrf` as `sk_vrf * G`.
        let pk_vrf = g_scalar_multiply(sk_vrf);
        // Compute `gamma` as `sk_vrf * H`.
        let gamma = generator_h.mul(sk_vrf);
        // Compute `u` as `randomizer * G`.
        let u = g_scalar_multiply(&randomizer);
        // Compute `v` as `randomizer * H`.
        let v = generator_h.mul(&randomizer);

        // Compute `challenge` as `HashToScalar(pk_vrf, gamma, u, v)`, on the
        // x-coordinate of each point.
        let preimage = vec![
            pk_vrf.to_x_coordinate(),
            gamma.to_x_coordinate(),
            u.to_x_coordinate(),
            v.to_x_coordinate(),
        ];
        assert(crate::network::field_values(preimage@) =~= seq![pk_vrf@, gamma@, u@, v@]);
        let challenge = match hash_to_scalar_psd4(&preimage) {
            Some(challenge) => challenge,
            None => {
                return Err(Error::HashToScalar);
            },
        };
        // Compute `response` as `randomizer - challenge * sk_vrf`.
        let response = scalar_sub(&randomizer, &scalar_mul(&challenge, sk_vrf));

        // Compute `output` as `HashToScalar(COFACTOR * gamma)`.
        let cleared = vec![gamma.mul_by_cofactor().to_x_coordinate()];
        assert(crate::network::field_values(cleared@) =~= seq![spec_mul_by_cofactor(gamma@)]);
        let output = match hash_to_scalar_psd4(&cleared) {
            Some(output) => output,
            None => {
                return Err(Error::HashToScalar);
            },
        };

        Ok(SerialNumber { output, proof: (gamma, challenge, response) })
    }

    /// The serial number of the given parts.
    pub closed spec fn spec_from_parts(
        output: Scalar,
        gamma: Group,
        challenge: Scalar,
        response: Scalar,
    ) -> SerialNumber {
        SerialNumber { output, proof: (gamma, challenge, response) }
    }

    /// Returns whether the serial number is one of `commitment` under the
    /// secret key that `pk_vrf` is the public key of. Neither the secret key
    /// nor the randomizer of the proof is needed.
    pub fn verify(&self, pk_vrf: &Group, commitment: Field) -> (r: bool)
        ensures
            r == spec_verify_serial_number(self@, pk_vrf@, commitment@),
    {
        proof {
            use_type_invariant(pk_vrf);
            use_type_invariant(commitment);
            use_type_invariant(self.output);
            use_type_invariant(self.proof.0);
            use_type_invariant(self.proof.1);
            use_type_invariant(self.proof.2);
        }
        let (gamma, challenge, response) = self.proof;
        // Compute the generator `H` as `HashToGroup(commitment)`.
        let input = vec![commitment];
        assert(crate::network::field_values(input@) =~= seq![commitment@]);
        let generator_h = match hash_to_group_psd2(&input) {
            Some(generator_h) => generator_h,
            None => {
                return false;
            },
        };
        // Compute `u` as `challenge * pk_vrf + response * G`.
        let u = pk_vrf.mul(&challenge).sum(&g_scalar_multiply(&response));
        // Compute `v` as `challenge * gamma + response * H`.
        let v = gamma.mul(&challenge).sum(&generator_h.mul(&response));

        // Compute the challenge that the proof answers.
        let preimage = vec![
            pk_vrf.to_x_coordinate(),
            gamma.to_x_coordinate(),
            u.to_x_coordinate(),
            v.to_x_coordinate(),
        ];
        assert(crate::network::field_values(preimage@) =~= seq![pk_vrf@, gamma@, u@, v@]);
        let candidate_challenge = hash_to_scalar_psd4(&preimage);
        // Compute the output that `gamma` gives.
        let cleared = vec![gamma.mul_by_cofactor().to_x_coordinate()];
        assert(crate::network::field_values(cleared@) =~= seq![spec_mul_by_cofactor(gamma@)]);
        let candidate_output = hash_to_scalar_psd4(&cleared);
        match (candidate_challenge, candidate_output) {
            (Some(candidate_challenge), Some(candidate_output)) => challenge.same(
                &candidate_challenge,
            ) && self.output.same(&candidate_output),
            _ => false,
        }
    }

    /// Makes a serial number of its parts: the output, and the proof's
    /// `gamma`, challenge and response.
    pub fn from_parts(output: Scalar, gamma: Group, challenge: Scalar, response: Scalar) -> (r:
        SerialNumber)
        ensures
            r == SerialNumber::spec_from_parts(output, gamma, challenge, response),
            r.spec_output() == output,
            r.spec_gamma() == gamma,
            r.spec_challenge() == challenge,
            r.spec_response() == response,
    {
        SerialNumber { output, proof: (gamma, challenge, response) }
    }

    /// The serial number proper, as a value of specifications.
    pub closed spec fn spec_output(self) -> Scalar {
        self.output
    }

    /// The proof's `gamma`, as a value of specifications.
    pub closed spec fn spec_gamma(self) -> Group {
        self.proof.0
    }

    /// The proof's challenge, as a value of specifications.
    pub closed spec fn spec_challenge(self) -> Scalar {
        self.proof.1
    }

    /// The proof's response, as a value of specifications.
    pub closed spec fn spec_response(self) -> Scalar {
        self.proof.2
    }

    /// The serial number proper.
    pub fn output(&self) -> (r: Scalar)
        ensures
            r == self.spec_output(),
            r@ == self@.output,
    {
        self.output
    }

    /// The proof `(gamma, challenge, response)`.
    pub fn to_proof(&self) -> (r: (Group, Scalar, Scalar))
        ensures
            r == (self.spec_gamma(), self.spec_challenge(), self.spec_response()),
            r.0@ == self@.gamma,
            r.1@ == self@.challenge,
            r.2@ == self@.response,
    {
        self.proof
    }
}

/// Two reduced integers that leave the same remainder after the same
/// subtraction are the same integer.
proof fn reduced_difference_injective(a: nat, b: nat, x: nat, m: nat)
    requires
        m > 0,
        a < m,
        b < m,
        x < m,
        (a - x) % (m as int) == (b - x) % (m as int),
    ensures
        a == b,
{
    let m: int = m as int;
    let p: int = a - x;
    let q: int = b - x;
    vstd::arithmetic::div_mod::lemma_fundamental_div_mod(p, m);
    vstd::arithmetic::div_mod::lemma_fundamental_div_mod(q, m);
    let k: int = p / m - q / m;
    assert(p - q == m * k) by (nonlinear_arith)
        requires
            p == m * (p / m) + p % m,
            q == m * (q / m) + q % m,
            p % m == q % m,
            k == p / m - q / m,
    ;
    assert(k == 0) by (nonlinear_arith)
        requires
            p - q == m * k,
            -m < p - q < m,
            m > 0,
    ;
}

/// A serial number that was proved passes its verification under the public
/// key of its secret key, where the curve gives back the two points of the
/// randomizer from the response: where the challenge times the public key
/// plus the response times the generator is the randomizer times the
/// generator, and likewise on the commitment's generator.
pub proof fn proved_serial_number_is_verified(sk_vrf: nat, commitment: nat, randomizer: nat)
    requires
        spec_prove(sk_vrf, commitment, randomizer) is Some,
        spec_group_add(
            spec_group_mul(
                spec_g_scalar_multiply(sk_vrf),
                spec_prove(sk_vrf, commitment, randomizer)->0.challenge,
            ),
            spec_g_scalar_multiply(spec_prove(sk_vrf, commitment, randomizer)->0.response),
        ) == spec_g_scalar_multiply(randomizer),
        spec_group_add(
            spec_group_mul(
                spec_prove(sk_vrf, commitment, randomizer)->0.gamma,
                spec_prove(sk_vrf, commitment, randomizer)->0.challenge,
            ),
            spec_group_mul(
                spec_hash_to_group_psd2(seq![commitment])->0,
                spec_prove(sk_vrf, commitment, randomizer)->0.response,
            ),
        ) == spec_group_mul(spec_hash_to_group_psd2(seq![commitment])->0, randomizer),
    ensures
        spec_verify_serial_number(
            spec_prove(sk_vrf, commitment, randomizer)->0,
            spec_g_scalar_multiply(sk_vrf),
            commitment,
        ),
{
}

/// The output of a serial number that was proved is the one that its
/// verification asks for: the hash of the cleared `gamma`.
pub proof fn proved_output_is_verified(sk_vrf: nat, commitment: nat, randomizer: nat)
    requires
        spec_prove(sk_vrf, commitment, randomizer) is Some,
    ensures
        spec_hash_to_scalar_psd4(
            seq![spec_mul_by_cofactor(spec_prove(sk_vrf, commitment, randomizer)->0.gamma)],
        ) == Some(spec_prove(sk_vrf, commitment, randomizer)->0.output),
{
}

/// A key and a commitment have one serial number, whatever the randomizer:
/// two proofs made with different randomizers carry the same output and the
/// same `gamma`, and differ in their challenge or in their response.
pub proof fn serial_number_is_unique_and_proofs_are_fresh(
    sk_vrf: nat,
    commitment: nat,
    randomizer_1: nat,
    randomizer_2: nat,
)
    requires
        sk_vrf < scalar_modulus(),
        randomizer_1 < scalar_modulus(),
        randomizer_2 < scalar_modulus(),
        randomizer_1 != randomizer_2,
        spec_prove(sk_vrf, commitment, randomizer_1) is Some,
        spec_prove(sk_vrf, commitment, randomizer_2) is Some,
    ensures
        spec_prove(sk_vrf, commitment, randomizer_1)->0.output == spec_prove(
            sk_vrf,
            commitment,
            randomizer_2,
        )->0.output,
        spec_prove(sk_vrf, commitment, randomizer_1)->0.gamma == spec_prove(
            sk_vrf,
            commitment,
            randomizer_2,
        )->0.gamma,
        spec_prove(sk_vrf, commitment, randomizer_1)->0.challenge != spec_prove(
            sk_vrf,
            commitment,
            randomizer_2,
        )->0.challenge || spec_prove(sk_vrf, commitment, randomizer_1)->0.response != spec_prove(
            sk_vrf,
            commitment,
            randomizer_2,
        )->0.response,
{
    let first = spec_prove(sk_vrf, commitment, randomizer_1)->0;
    let second = spec_prove(sk_vrf, commitment, randomizer_2)->0;
    if first.challenge == second.challenge && first.response == second.response {
        let x = (first.challenge * sk_vrf) % scalar_modulus();
        assert(first.response == spec_response(randomizer_1, first.challenge, sk_vrf));
        assert(second.response == spec_response(randomizer_2, second.challenge, sk_vrf));
        let m: int = scalar_modulus() as int;
        assert(0 <= (randomizer_1 - x) % m) by {
            vstd::arithmetic::div_mod::lemma_mod_pos_bound(randomizer_1 - x, m);
        }
        assert(0 <= (randomizer_2 - x) % m) by {
            vstd::arithmetic::div_mod::lemma_mod_pos_bound(randomizer_2 - x, m);
        }
        reduced_difference_injective(randomizer_1, randomizer_2, x, scalar_modulus());
    }
}

impl Wire for SerialNumber {
    open spec fn spec_size() -> nat {
        128
    }

    open spec fn wire_wf(self) -> bool {
        self.spec_output().wf() && self.spec_gamma().wf() && self.spec_challenge().wf()
            && self.spec_response().wf()
    }

    open spec fn spec_encode(self) -> Seq<u8> {
        self.spec_output().spec_encode() + self.spec_gamma().spec_encode()
            + self.spec_challenge().spec_encode() + self.spec_response().spec_encode()
    }

    open spec fn spec_decode(bytes: Seq<u8>) -> Option<SerialNumber> {
        match (
            Scalar::spec_decode(bytes.subrange(0, 32)),
            Group::spec_decode(bytes.subrange(32, 64)),
            Scalar::spec_decode(bytes.subrange(64, 96)),
            Scalar::spec_decode(bytes.subrange(96, 128)),
        ) {
            (Some(output), Some(gamma), Some(challenge), Some(response)) => Some(
                SerialNumber::spec_from_parts(output, gamma, challenge, response),
            ),
            _ => None,
        }
    }

    proof fn encoded_and_decoded(self) {
        self.output.encoded_and_decoded();
        self.proof.0.encoded_and_decoded();
        self.proof.1.encoded_and_decoded();
        self.proof.2.encoded_and_decoded();
        let bytes = self.spec_encode();
        assert(bytes.subrange(0, 32) =~= self.output.spec_encode());
        assert(bytes.subrange(32, 64) =~= self.proof.0.spec_encode());
        assert(bytes.subrange(64, 96) =~= self.proof.1.spec_encode());
        assert(bytes.subrange(96, 128) =~= self.proof.2.spec_encode());
    }

    fn size() -> (r: usize) {
        128
    }

    fn encode(&self, out: &mut Vec<u8>) {
        self.output.encode(out);
        self.proof.0.encode(out);
        self.proof.1.encode(out);
        self.proof.2.encode(out);
        assert(out@ =~= old(out)@ + self.spec_encode());
    }

    fn decode(bytes: &[u8]) -> (r: Option<SerialNumber>) {
        if bytes.len() != 128 {
            return None;
        }
        let output = match Scalar::decode(slice_subrange(bytes, 0, 32)) {
            Some(output) => output,
            None => {
                return None;
            },
        };
        let gamma = match Group::decode(slice_subrange(bytes, 32, 64)) {
            Some(gamma) => gamma,
            None => {
                return None;
            },
        };
        let challenge = match Scalar::decode(slice_subrange(bytes, 64, 96)) {
            Some(challenge) => challenge,
            None => {
                return None;
            },
        };
        let response = match Scalar::decode(slice_subrange(bytes, 96, 128)) {
            Some(response) => response,
            None => {
                return None;
            },
        };
        Some(SerialNumber { output, proof: (gamma, challenge, response) })
    }
}

} // verus!
