//! How addresses are written and read.

use crate::account::Address;
use crate::boolean::starts_with;
use crate::error::Error;
use crate::field::Field;
use crate::field::Group;
use snarkvm_console_account::Address as NativeAddress;
use snarkvm_console_account::Field as NativeField;
use snarkvm_console_account::Group as NativeGroup;
use snarkvm_console_account::Zero;
use snarkvm_console_network::TestnetV0;
use snarkvm_curves::edwards_bls12::Fq;
use snarkvm_fields::PrimeField;
use snarkvm_utilities::BigInteger256;
use std::str::FromStr;
use vstd::prelude::*;
use vstd::string::StrSliceExecFns;

verus! {

/// The characters that every written address begins with.
pub open spec fn address_prefix() -> Seq<char> {
    seq!['a', 'l', 'e', 'o', '1']
}

/// Whether a character is one of the 32 that the data of an address is
/// written in.
pub open spec fn is_address_char(c: char) -> bool {
    c == 'q' || c == 'p' || c == 'z' || c == 'r' || c == 'y' || c == '9' || c == 'x' || c == '8'
        || c == 'g' || c == 'f' || c == '2' || c == 't' || c == 'v' || c == 'd' || c == 'w' || c
        == '0' || c == 's' || c == '3' || c == 'j' || c == 'n' || c == '5' || c == '4' || c == 'k'
        || c == 'h' || c == 'c' || c == 'e' || c == '6' || c == 'm' || c == 'u' || c == 'a' || c
        == '7' || c == 'l'
}

/// The number of characters at the head of a string that are data
/// characters or underscores.
pub open spec fn spec_body_len(string: Seq<char>) -> nat
    decreases string.len(),
{
    if string.len() > 0 && (is_address_char(string[0]) || string[0] == '_') {
        1 + spec_body_len(string.skip(1))
    } else {
        0
    }
}

/// The length of the written address that a string begins with: the prefix,
/// a data character, and as many data characters and underscores as follow;
/// `None` where the string begins with no such thing.
pub open spec fn spec_recognize_address(string: Seq<char>) -> Option<nat> {
    if starts_with(string, address_prefix()) && string.len() > 5 && is_address_char(string[5]) {
        Some(5 + spec_body_len(string.skip(5)))
    } else {
        None
    }
}

/// A string without its underscores.
pub open spec fn spec_strip_underscores(string: Seq<char>) -> Seq<char> {
    string.filter(|c: char| c != '_')
}

/// The x-coordinate of the address that a string of 63 characters stands for
/// in bech32m, or `None` where it stands for none: what `Address::from_str`
/// returns.
pub uninterp spec fn spec_address_from_str(string: Seq<char>) -> Option<nat>;

/// How the address with the given x-coordinate is written in bech32m: what
/// `Address::fmt` writes.
pub uninterp spec fn spec_address_to_string(address: nat) -> Seq<char>;

/// The address that a string begins with, and what follows it; `None` where
/// the string begins with no written address, or with one that stands for no
/// address.
pub open spec fn spec_parse_address(string: Seq<char>) -> Option<(Seq<char>, nat)> {
    match spec_recognize_address(string) {
        None => None,
        Some(length) => match spec_address_from_str(
            spec_strip_underscores(string.take(length as int)),
        ) {
            None => None,
            Some(address) => Some((string.skip(length as int), address)),
        },
    }
}

/// Returns whether a character is one that the data of an address is written
/// in.
pub fn address_char(c: char) -> (r: bool)
    ensures
        r == is_address_char(c),
{
    c == 'q' || c == 'p' || c == 'z' || c == 'r' || c == 'y' || c == '9' || c == 'x' || c == '8'
        || c == 'g' || c == 'f' || c == '2' || c == 't' || c == 'v' || c == 'd' || c == 'w' || c
        == '0' || c == 's' || c == '3' || c == 'j' || c == 'n' || c == '5' || c == '4' || c == 'k'
        || c == 'h' || c == 'c' || c == 'e' || c == '6' || c == 'm' || c == 'u' || c == 'a' || c
        == '7' || c == 'l'
}

/// Removes the underscores from a string.
///
/// Calls `str::replace`, which replaces every match of a pattern, here the
/// underscore, by a string, here the empty one.
#[verifier::external_body]
fn strip_underscores(string: &str) -> (r: String)
    ensures
        r@ == spec_strip_underscores(string@),
{
    string.replace('_', "")
}

/// Reads an address from its bech32m form.
///
/// Calls `Address::from_str`, which wants 63 characters, decodes them, and
/// reads the address from the bytes; a function of the string alone.
#[verifier::external_body]
fn address_from_str(string: &str) -> (r: Option<Group>)
    ensures
        r is Some <==> spec_address_from_str(string@) is Some,
        r matches Some(g) ==> g.wf() && Some(g@) == spec_address_from_str(string@),
{
    match NativeAddress::<TestnetV0>::from_str(string) {
        Ok(address) => Some(Group { x: Field { limbs: address.to_x_coordinate().to_bigint().0 } }),
        Err(_) => None,
    }
}

/// Writes an address in its bech32m form.
///
/// Calls `to_string` of the console `Address`, which encodes the bytes of
/// the address in bech32m under the prefix `aleo`.
#[verifier::external_body]
fn address_to_string(address: &Group) -> (r: String)
    requires
        address.wf(),
    ensures
        r@ == spec_address_to_string(address@),
{
    let x = NativeField::<TestnetV0>::new(Fq::from_bigint(BigInteger256(address.x.limbs)).unwrap_or_default());
    NativeAddress::new(NativeGroup::from_x_coordinate(x).unwrap_or(NativeGroup::zero())).to_string()
}

/// The run of data characters and underscores at the head of a string goes
/// on from any place inside it.
proof fn body_len_splits(string: Seq<char>, index: int)
    requires
        0 <= index <= string.len(),
        forall|i: int| 0 <= i < index ==> is_address_char(string[i]) || string[i] == '_',
    ensures
        spec_body_len(string) == index + spec_body_len(string.skip(index)),
    decreases index,
{
    if index > 0 {
        assert(string.skip(1).skip(index - 1) =~= string.skip(index));
        body_len_splits(string.skip(1), index - 1);
    } else {
        assert(string.skip(0) =~= string);
    }
}

impl Address {
    /// Returns the type name as a string.
    pub fn name_of_type() -> (r: &'static str)
        ensures
            r@ == seq!['a', 'd', 'd', 'r', 'e', 's', 's'],
    {
        let name = "address";
        proof {
            reveal_strlit("address");
            assert(name@ =~= seq!['a', 'd', 'd', 'r', 'e', 's', 's']);
        }
        name
    }

    /// Parses a string into an address: the address that the string begins
    /// with, and the rest of the string. Underscores between the characters
    /// of the address are passed over.
    pub fn parse(string: &str) -> (r: Result<(&str, Address), Error>)
        ensures
            match spec_parse_address(string@) {
                Some((rest, address)) => r matches Ok((remainder, parsed)) && remainder@ == rest
                    && parsed@ == address,
                None => r == Err::<(&str, Address), Error>(Error::Parse),
            },
    {
        let length = string.unicode_len();
        if !(length > 5 && string.get_char(0) == 'a' && string.get_char(1) == 'l'
            && string.get_char(2) == 'e' && string.get_char(3) == 'o' && string.get_char(4) == '1'
            && address_char(string.get_char(5))) {
            proof {
                if starts_with(string@, address_prefix()) {
                    let head = string@.take(5);
                    assert(head[0] == 'a' && head[1] == 'l' && head[2] == 'e' && head[3] == 'o'
                        && head[4] == '1');
                }
            }
            return Err(Error::Parse);
        }
        assert(string@.take(5) =~= address_prefix());
        let ghost body = string@.skip(5);
        let mut end: usize = 6;
        while end < length && (address_char(string.get_char(end)) || string.get_char(end) == '_')
            invariant
                6 <= end <= length,
                length == string@.len(),
                body == string@.skip(5),
                forall|i: int| 0 <= i < end - 5 ==> is_address_char(body[i]) || body[i] == '_',
            decreases length - end,
        {
            end += 1;
        }
        proof {
            body_len_splits(body, end - 5);
            assert(body.skip(end - 5) =~= string@.skip(end as int));
            assert(spec_body_len(string@.skip(end as int)) == 0);
            assert(spec_recognize_address(string@) == Some(end as nat));
            assert(string@.subrange(0, end as int) =~= string@.take(end as int));
            assert(string@.subrange(end as int, length as int) =~= string@.skip(end as int));
        }
        // Parse the address from the string.
        let stripped = strip_underscores(string.substring_char(0, end));
        match address_from_str(stripped.as_str()) {
            Some(address) => Ok((string.substring_char(end, length), Address::new(address))),
            None => Err(Error::Parse),
        }
    }

    /// Parses a string into an address: the string is a written address, and
    /// nothing else.
    pub fn from_str(string: &str) -> (r: Result<Address, Error>)
        ensures
            match spec_parse_address(string@) {
                Some((rest, address)) => if rest.len() == 0 {
                    r matches Ok(parsed) && parsed@ == address
                } else {
                    r == Err::<Address, Error>(Error::TrailingCharacters)
                },
                None => r == Err::<Address, Error>(Error::Parse),
            },
    {
        match Self::parse(string) {
            Ok((remainder, object)) => {
                // Ensure the remainder is empty.
                if remainder.unicode_len() != 0 {
                    return Err(Error::TrailingCharacters);
                }
                // Return the object.
                Ok(object)
            },
            Err(error) => Err(error),
        }
    }

    /// Returns how the address is written.
    pub fn to_string(&self) -> (r: String)
        ensures
            r@ == spec_address_to_string(self@),
    {
        address_to_string(&self.to_group())
    }
}

} // verus!
