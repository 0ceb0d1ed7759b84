//! Elements of the two prime fields and of the curve's prime-order subgroup,
//! held as plain integers: four 64-bit limbs, least significant first.

use crate::wire::decode_limbs;
use crate::wire::encode_limbs;
use crate::wire::limbs_encoded_and_decoded;
use crate::wire::spec_decode_limbs;
use crate::wire::spec_encode_limbs;
use crate::wire::Wire;
use snarkvm_console_account::Field as NativeField;
use snarkvm_console_account::Group as NativeGroup;
use snarkvm_console_account::Scalar as NativeScalar;
use snarkvm_console_account::Zero;
use snarkvm_console_network::TestnetV0;
use snarkvm_curves::edwards_bls12::Fq;
use snarkvm_curves::edwards_bls12::Fr;
use snarkvm_fields::PrimeField;
use snarkvm_utilities::BigInteger256;
use vstd::prelude::*;

verus! {

/// The order of the scalar field.
pub open spec fn scalar_modulus() -> nat {
    2111115437357092606062206234695386632838870926408408195193685246394721360383nat
}

/// The order of the base field.
pub open spec fn field_modulus() -> nat {
    8444461749428370424248824938781546531375899335154063827935233455917409239041nat
}

/// The integer that four limbs stand for, least significant limb first.
pub open spec fn limbs_value(limbs: Seq<u64>) -> nat {
    (limbs[0] + limbs[1] * 0x1_0000_0000_0000_0000 + limbs[2]
        * 0x1_0000_0000_0000_0000_0000_0000_0000_0000int + limbs[3]
        * 0x1_0000_0000_0000_0000_0000_0000_0000_0000_0000_0000_0000_0000int) as nat
}

/// Two groups of four limbs that stand for the same integer are the same limbs.
pub proof fn limbs_value_injective(a: Seq<u64>, b: Seq<u64>)
    requires
        a.len() == 4,
        b.len() == 4,
        limbs_value(a) == limbs_value(b),
    ensures
        a =~= b,
{
    let base: int = 0x1_0000_0000_0000_0000;
    let a_high: int = a[1] + a[2] * base + a[3] * (base * base);
    let b_high: int = b[1] + b[2] * base + b[3] * (base * base);
    assert(base * base == 0x1_0000_0000_0000_0000_0000_0000_0000_0000int) by (nonlinear_arith)
        requires
            base == 0x1_0000_0000_0000_0000,
    ;
    assert(limbs_value(a) == a[0] + base * a_high) by (nonlinear_arith)
        requires
            base == 0x1_0000_0000_0000_0000,
            a_high == a[1] + a[2] * base + a[3] * (base * base),
            limbs_value(a) == a[0] + a[1] * 0x1_0000_0000_0000_0000 + a[2]
                * 0x1_0000_0000_0000_0000_0000_0000_0000_0000int + a[3]
                * 0x1_0000_0000_0000_0000_0000_0000_0000_0000_0000_0000_0000_0000int,
    ;
    assert(limbs_value(b) == b[0] + base * b_high) by (nonlinear_arith)
        requires
            base == 0x1_0000_0000_0000_0000,
            b_high == b[1] + b[2] * base + b[3] * (base * base),
            limbs_value(b) == b[0] + b[1] * 0x1_0000_0000_0000_0000 + b[2]
                * 0x1_0000_0000_0000_0000_0000_0000_0000_0000int + b[3]
                * 0x1_0000_0000_0000_0000_0000_0000_0000_0000_0000_0000_0000_0000int,
    ;
    digits_unique(base, a[0] as int, a_high, b[0] as int, b_high);
    let a_top: int = a[2] + a[3] * base;
    let b_top: int = b[2] + b[3] * base;
    assert(a_high == a[1] + base * a_top) by (nonlinear_arith)
        requires
            a_high == a[1] + a[2] * base + a[3] * (base * base),
            a_top == a[2] + a[3] * base,
    ;
    assert(b_high == b[1] + base * b_top) by (nonlinear_arith)
        requires
            b_high == b[1] + b[2] * base + b[3] * (base * base),
            b_top == b[2] + b[3] * base,
    ;
    digits_unique(base, a[1] as int, a_top, b[1] as int, b_top);
    assert(a_top == a[2] + base * a[3]) by (nonlinear_arith)
        requires
            a_top == a[2] + a[3] * base,
    ;
    assert(b_top == b[2] + base * b[3]) by (nonlinear_arith)
        requires
            b_top == b[2] + b[3] * base,
    ;
    digits_unique(base, a[2] as int, a[3] as int, b[2] as int, b[3] as int);
}

/// A number written as a low digit below the base and a rest has one such writing.
proof fn digits_unique(base: int, low_a: int, high_a: int, low_b: int, high_b: int)
    by (nonlinear_arith)
    requires
        base > 0,
        0 <= low_a < base,
        0 <= low_b < base,
        low_a + base * high_a == low_b + base * high_b,
    ensures
        low_a == low_b,
        high_a == high_b,
{
    if high_a > high_b {
        assert(base * high_a >= base * (high_b + 1));
    } else if high_a < high_b {
        assert(base * high_b >= base * (high_a + 1));
    }
}

/// Whether the integer that the limbs stand for lies below the one that `bound`
/// stands for.
fn limbs_below(limbs: &[u64; 4], bound: &[u64; 4]) -> (r: bool)
    ensures
        r == (limbs_value(limbs@) < limbs_value(bound@)),
{
    if limbs[3] != bound[3] {
        limbs[3] < bound[3]
    } else if limbs[2] != bound[2] {
        limbs[2] < bound[2]
    } else if limbs[1] != bound[1] {
        limbs[1] < bound[1]
    } else {
        limbs[0] < bound[0]
    }
}

/// The limbs of the scalar field's order.
pub fn scalar_modulus_limbs() -> (r: [u64; 4])
    ensures
        limbs_value(r@) == scalar_modulus(),
{
    [0xb95aee9ac33fd9ff, 0x5293a3afc43c8afe, 0x982d1347970dec00, 0x04aad957a68b2955]
}

/// The limbs of the base field's order.
pub fn field_modulus_limbs() -> (r: [u64; 4])
    ensures
        limbs_value(r@) == field_modulus(),
{
    [0x0a11800000000001, 0x59aa76fed0000001, 0x60b44d1e5c37b001, 0x12ab655e9a2ca556]
}

/// An element of the scalar field: an integer below the field's order.
#[derive(Clone, Copy, Debug, PartialEq, Eq, Hash)]
pub struct Scalar {
    pub(crate) limbs: [u64; 4],
}

impl Scalar {
    /// Every element that a program holds is reduced.
    #[verifier::type_invariant]
    pub open spec fn type_inv(self) -> bool {
        self.wf()
    }

    /// The element is reduced: it lies below the order of the field.
    pub closed spec fn wf(self) -> bool {
        limbs_value(self.limbs@) < scalar_modulus()
    }

    /// The element with the given limbs.
    pub closed spec fn spec_from_limbs(limbs: [u64; 4]) -> Scalar {
        Scalar { limbs }
    }

    /// The integer that the element stands for.
    pub closed spec fn view(self) -> nat {
        limbs_value(self.limbs@)
    }

    /// The element's limbs, as a sequence.
    pub closed spec fn spec_limbs(self) -> Seq<u64> {
        self.limbs@
    }

    /// Makes a scalar of four limbs; `None` where they do not stand for a
    /// reduced element.
    pub fn from_limbs(limbs: [u64; 4]) -> (r: Option<Scalar>)
        ensures
            r is Some <==> limbs_value(limbs@) < scalar_modulus(),
            r matches Some(s) ==> s == Scalar::spec_from_limbs(limbs),
            r matches Some(s) ==> s@ == limbs_value(limbs@) && s.wf() && s.spec_limbs() == limbs@,
    {
        let bound = scalar_modulus_limbs();
        if limbs_below(&limbs, &bound) {
            Some(Scalar { limbs })
        } else {
            None
        }
    }

    /// The four limbs of the element.
    pub fn limbs(&self) -> (r: [u64; 4])
        ensures
            limbs_value(r@) == self@,
            r@ == self.spec_limbs(),
    {
        self.limbs
    }

    /// The element's limbs as a list.
    pub fn to_key(&self) -> (r: Vec<u64>)
        ensures
            r@ == self.spec_limbs(),
    {
        let r = vec![self.limbs[0], self.limbs[1], self.limbs[2], self.limbs[3]];
        assert(r@ =~= self.limbs@);
        r
    }

    /// Two elements with the same limbs are the same element.
    pub proof fn same_limbs(a: Scalar, b: Scalar)
        requires
            a.spec_limbs() == b.spec_limbs(),
        ensures
            a == b,
    {
        assert(a.limbs@ =~= b.limbs@);
        assert(a.limbs == b.limbs);
    }

    /// Whether two scalars are the same element.
    pub fn same(&self, other: &Scalar) -> (r: bool)
        ensures
            r == (self@ == other@),
    {
        proof {
            if self@ == other@ {
                limbs_value_injective(self.limbs@, other.limbs@);
            }
        }
        self.limbs[0] == other.limbs[0] && self.limbs[1] == other.limbs[1] && self.limbs[2]
            == other.limbs[2] && self.limbs[3] == other.limbs[3]
    }
}

/// The difference of two scalars.
///
/// Calls `Sub` of the console `Scalar`, which subtracts in the scalar field:
/// the result is the reduced difference of the two integers.
#[verifier::external_body]
pub(crate) fn scalar_sub(a: &Scalar, b: &Scalar) -> (r: Scalar)
    requires
        a.wf(),
        b.wf(),
    ensures
        r.wf(),
        r@ == (a@ - b@) % (scalar_modulus() as int),
{
    let x = NativeScalar::<TestnetV0>::new(Fr::from_bigint(BigInteger256(a.limbs)).unwrap_or_default());
    let y = NativeScalar::<TestnetV0>::new(Fr::from_bigint(BigInteger256(b.limbs)).unwrap_or_default());
    Scalar { limbs: (x - y).to_bigint().0 }
}

/// The product of two scalars.
///
/// Calls `Mul` of the console `Scalar`, which multiplies in the scalar field:
/// the result is the reduced product of the two integers.
#[verifier::external_body]
pub(crate) fn scalar_mul(a: &Scalar, b: &Scalar) -> (r: Scalar)
    requires
        a.wf(),
        b.wf(),
    ensures
        r.wf(),
        r@ == (a@ * b@) % scalar_modulus(),
{
    let x = NativeScalar::<TestnetV0>::new(Fr::from_bigint(BigInteger256(a.limbs)).unwrap_or_default());
    let y = NativeScalar::<TestnetV0>::new(Fr::from_bigint(BigInteger256(b.limbs)).unwrap_or_default());
    Scalar { limbs: (x * y).to_bigint().0 }
}

/// An element of the base field: an integer below the field's order.
#[derive(Clone, Copy, Debug, PartialEq, Eq, Hash)]
pub struct Field {
    pub(crate) limbs: [u64; 4],
}

impl Field {
    /// Every element that a program holds is reduced.
    #[verifier::type_invariant]
    pub open spec fn type_inv(self) -> bool {
        self.wf()
    }

    /// The element is reduced: it lies below the order of the field.
    pub closed spec fn wf(self) -> bool {
        limbs_value(self.limbs@) < field_modulus()
    }

    /// The element with the given limbs.
    pub closed spec fn spec_from_limbs(limbs: [u64; 4]) -> Field {
        Field { limbs }
    }

    /// The integer that the element stands for.
    pub closed spec fn view(self) -> nat {
        limbs_value(self.limbs@)
    }

    /// The element's limbs, as a sequence.
    pub closed spec fn spec_limbs(self) -> Seq<u64> {
        self.limbs@
    }

    /// Makes a field element of four limbs; `None` where they do not stand for
    /// a reduced element.
    pub fn from_limbs(limbs: [u64; 4]) -> (r: Option<Field>)
        ensures
            r is Some <==> limbs_value(limbs@) < field_modulus(),
            r matches Some(f) ==> f == Field::spec_from_limbs(limbs),
            r matches Some(f) ==> f@ == limbs_value(limbs@) && f.wf() && f.spec_limbs() == limbs@,
    {
        let bound = field_modulus_limbs();
        if limbs_below(&limbs, &bound) {
            Some(Field { limbs })
        } else {
            None
        }
    }

    /// The base-field element with the limbs of a scalar.
    pub closed spec fn spec_from_scalar(scalar: Scalar) -> Field {
        Field { limbs: scalar.limbs }
    }

    /// The scalar's integer as an element of the base field, whose order is
    /// the larger one.
    pub fn from_scalar(scalar: Scalar) -> (r: Field)
        ensures
            r == Field::spec_from_scalar(scalar),
            r@ == scalar@,
            r.wf(),
    {
        proof {
            use_type_invariant(scalar);
        }
        Field { limbs: scalar.limbs }
    }

    /// The base-field element of a 64-bit integer, as a value of
    /// specifications.
    pub closed spec fn spec_from_u64(value: u64) -> Field {
        Field { limbs: [value, 0, 0, 0] }
    }

    /// The field element of a 64-bit integer.
    pub fn from_u64(value: u64) -> (r: Field)
        ensures
            r == Field::spec_from_u64(value),
            r@ == value,
            r.wf(),
    {
        Field { limbs: [value, 0, 0, 0] }
    }

    /// The four limbs of the element.
    pub fn limbs(&self) -> (r: [u64; 4])
        ensures
            limbs_value(r@) == self@,
            r@ == self.spec_limbs(),
    {
        self.limbs
    }

    /// The element's limbs as a list.
    pub fn to_key(&self) -> (r: Vec<u64>)
        ensures
            r@ == self.spec_limbs(),
    {
        let r = vec![self.limbs[0], self.limbs[1], self.limbs[2], self.limbs[3]];
        assert(r@ =~= self.limbs@);
        r
    }

    /// Two elements with the same limbs are the same element.
    pub proof fn same_limbs(a: Field, b: Field)
        requires
            a.spec_limbs() == b.spec_limbs(),
        ensures
            a == b,
    {
        assert(a.limbs@ =~= b.limbs@);
        assert(a.limbs == b.limbs);
    }

    /// Whether two field elements are the same element.
    pub fn same(&self, other: &Field) -> (r: bool)
        ensures
            r == (self@ == other@),
    {
        proof {
            if self@ == other@ {
                limbs_value_injective(self.limbs@, other.limbs@);
            }
        }
        self.limbs[0] == other.limbs[0] && self.limbs[1] == other.limbs[1] && self.limbs[2]
            == other.limbs[2] && self.limbs[3] == other.limbs[3]
    }
}

/// Whether a base-field element is the x-coordinate of a point of the curve's
/// prime-order subgroup: whether `Group::from_x_coordinate` recovers a point
/// from it.
pub uninterp spec fn spec_on_subgroup(x: nat) -> bool;

/// The x-coordinate of the product of a point, given by its x-coordinate, and
/// a scalar: what `Mul<Scalar>` of the console `Group` returns.
pub uninterp spec fn spec_group_mul(point: nat, scalar: nat) -> nat;

/// The x-coordinate of the sum of two points, given by their x-coordinates:
/// what `Add` of the console `Group` returns.
pub uninterp spec fn spec_group_add(first: nat, second: nat) -> nat;

/// The x-coordinate of a point times the curve's cofactor: what
/// `Group::mul_by_cofactor` returns.
pub uninterp spec fn spec_mul_by_cofactor(point: nat) -> nat;

/// Whether a base-field element is the x-coordinate of a point of the
/// subgroup.
///
/// Calls `Group::from_x_coordinate`, which takes the two points of the curve
/// with that x-coordinate, if there are any, and returns the one that lies in
/// the prime-order subgroup, or fails.
#[verifier::external_body]
fn recovers_point(x: &Field) -> (r: bool)
    requires
        x.wf(),
    ensures
        r == spec_on_subgroup(x@),
{
    let native = NativeField::<TestnetV0>::new(Fq::from_bigint(BigInteger256(x.limbs)).unwrap_or_default());
    NativeGroup::from_x_coordinate(native).is_ok()
}

/// A point of the curve's prime-order subgroup, held by its x-coordinate,
/// which determines it.
#[derive(Clone, Copy, Debug, PartialEq, Eq, Hash)]
pub struct Group {
    pub(crate) x: Field,
}

impl Group {
    /// Every point that a program holds lies in the subgroup.
    #[verifier::type_invariant]
    pub open spec fn type_inv(self) -> bool {
        self.wf()
    }

    /// The point with the given x-coordinate.
    pub closed spec fn spec_from_x_coordinate(x: Field) -> Group {
        Group { x }
    }

    /// The x-coordinate is reduced and belongs to a point of the subgroup.
    pub closed spec fn wf(self) -> bool {
        self.x.wf() && spec_on_subgroup(self.x@)
    }

    /// The x-coordinate of the point, as an integer.
    pub closed spec fn view(self) -> nat {
        self.x@
    }

    /// Returns the point of the subgroup with the given x-coordinate, or
    /// `None` where there is none.
    pub fn from_x_coordinate(x: Field) -> (r: Option<Group>)
        ensures
            r is Some <==> spec_on_subgroup(x@),
            r matches Some(g) ==> g == Group::spec_from_x_coordinate(x) && g@ == x@
                && g.spec_x_coordinate() == x && g.wf(),
    {
        proof {
            use_type_invariant(x);
        }
        if recovers_point(&x) {
            Some(Group { x })
        } else {
            None
        }
    }

    /// The x-coordinate of the point, as a value of specifications.
    pub closed spec fn spec_x_coordinate(self) -> Field {
        self.x
    }

    /// The x-coordinate of the point.
    pub fn to_x_coordinate(&self) -> (r: Field)
        ensures
            r == self.spec_x_coordinate(),
            r@ == self@,
            r.wf(),
    {
        proof {
            use_type_invariant(self);
        }
        self.x
    }

    /// The point times a scalar.
    ///
    /// Calls `Mul<Scalar>` of the console `Group`, which multiplies the point
    /// by the scalar on the curve; the product of a subgroup point lies in the
    /// subgroup.
    #[verifier::external_body]
    pub(crate) fn mul(&self, scalar: &Scalar) -> (r: Group)
        requires
            self.wf(),
            scalar.wf(),
        ensures
            r.wf(),
            r@ == spec_group_mul(self@, scalar@),
    {
        let x = NativeField::<TestnetV0>::new(Fq::from_bigint(BigInteger256(self.x.limbs)).unwrap_or_default());
        let point = NativeGroup::from_x_coordinate(x).unwrap_or(NativeGroup::zero());
        let s = NativeScalar::<TestnetV0>::new(Fr::from_bigint(BigInteger256(scalar.limbs)).unwrap_or_default());
        Group { x: Field { limbs: (point * s).to_x_coordinate().to_bigint().0 } }
    }

    /// The sum of the point and another.
    ///
    /// Calls `Add` of the console `Group`, which adds the two points on the
    /// curve; the sum of two subgroup points lies in the subgroup.
    #[verifier::external_body]
    pub(crate) fn sum(&self, other: &Group) -> (r: Group)
        requires
            self.wf(),
            other.wf(),
        ensures
            r.wf(),
            r@ == spec_group_add(self@, other@),
    {
        let x = NativeField::<TestnetV0>::new(Fq::from_bigint(BigInteger256(self.x.limbs)).unwrap_or_default());
        let y = NativeField::<TestnetV0>::new(Fq::from_bigint(BigInteger256(other.x.limbs)).unwrap_or_default());
        let first = NativeGroup::from_x_coordinate(x).unwrap_or(NativeGroup::zero());
        let second = NativeGroup::from_x_coordinate(y).unwrap_or(NativeGroup::zero());
        Group { x: Field { limbs: (first + second).to_x_coordinate().to_bigint().0 } }
    }

    /// The point times the curve's cofactor.
    ///
    /// Calls `Group::mul_by_cofactor`, which doubles the point twice; the
    /// result lies in the subgroup.
    #[verifier::external_body]
    pub(crate) fn mul_by_cofactor(&self) -> (r: Group)
        requires
            self.wf(),
        ensures
            r.wf(),
            r@ == spec_mul_by_cofactor(self@),
    {
        let x = NativeField::<TestnetV0>::new(Fq::from_bigint(BigInteger256(self.x.limbs)).unwrap_or_default());
        let point = NativeGroup::from_x_coordinate(x).unwrap_or(NativeGroup::zero());
        Group { x: Field { limbs: point.mul_by_cofactor().to_x_coordinate().to_bigint().0 } }
    }
}

impl Wire for Scalar {
    open spec fn spec_size() -> nat {
        32
    }

    open spec fn wire_wf(self) -> bool {
        self.wf()
    }

    open spec fn spec_encode(self) -> Seq<u8> {
        spec_encode_limbs(self.spec_limbs())
    }

    open spec fn spec_decode(bytes: Seq<u8>) -> Option<Scalar> {
        if limbs_value(spec_decode_limbs(bytes)@) < scalar_modulus() {
            Some(Scalar::spec_from_limbs(spec_decode_limbs(bytes)))
        } else {
            None
        }
    }

    proof fn encoded_and_decoded(self) {
        limbs_encoded_and_decoded(self.limbs);
    }

    fn size() -> (r: usize) {
        32
    }

    fn encode(&self, out: &mut Vec<u8>) {
        proof {
            use_type_invariant(self);
        }
        encode_limbs(&self.limbs, out);
    }

    fn decode(bytes: &[u8]) -> (r: Option<Scalar>) {
        if bytes.len() != 32 {
            return None;
        }
        Scalar::from_limbs(decode_limbs(bytes))
    }
}

impl Wire for Field {
    open spec fn spec_size() -> nat {
        32
    }

    open spec fn wire_wf(self) -> bool {
        self.wf()
    }

    open spec fn spec_encode(self) -> Seq<u8> {
        spec_encode_limbs(self.spec_limbs())
    }

    open spec fn spec_decode(bytes: Seq<u8>) -> Option<Field> {
        if limbs_value(spec_decode_limbs(bytes)@) < field_modulus() {
            Some(Field::spec_from_limbs(spec_decode_limbs(bytes)))
        } else {
            None
        }
    }

    proof fn encoded_and_decoded(self) {
        limbs_encoded_and_decoded(self.limbs);
    }

    fn size() -> (r: usize) {
        32
    }

    fn encode(&self, out: &mut Vec<u8>) {
        proof {
            use_type_invariant(self);
        }
        encode_limbs(&self.limbs, out);
    }

    fn decode(bytes: &[u8]) -> (r: Option<Field>) {
        if bytes.len() != 32 {
            return None;
        }
        Field::from_limbs(decode_limbs(bytes))
    }
}

impl Wire for Group {
    open spec fn spec_size() -> nat {
        32
    }

    open spec fn wire_wf(self) -> bool {
        self.wf()
    }

    open spec fn spec_encode(self) -> Seq<u8> {
        self.spec_x_coordinate().spec_encode()
    }

    open spec fn spec_decode(bytes: Seq<u8>) -> Option<Group> {
        match Field::spec_decode(bytes) {
            Some(x) => if spec_on_subgroup(x@) {
                Some(Group::spec_from_x_coordinate(x))
            } else {
                None
            },
            None => None,
        }
    }

    proof fn encoded_and_decoded(self) {
        self.x.encoded_and_decoded();
        assert(self.x.limbs == spec_decode_limbs(self.x.spec_encode()));
    }

    fn size() -> (r: usize) {
        32
    }

    fn encode(&self, out: &mut Vec<u8>) {
        proof {
            use_type_invariant(self);
        }
        self.x.encode(out);
    }

    fn decode(bytes: &[u8]) -> (r: Option<Group>) {
        if bytes.len() != 32 {
            return None;
        }
        match Field::decode(bytes) {
            Some(x) => Group::from_x_coordinate(x),
            None => None,
        }
    }
}

} // verus!
