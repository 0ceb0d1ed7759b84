//! Booleans, and how they are written.

use crate::error::Error;
use vstd::prelude::*;
use vstd::string::StrSliceExecFns;

verus! {

/// A boolean.
#[derive(Clone, Copy, Debug, PartialEq, Eq, Hash)]
pub struct Boolean {
    boolean: bool,
}

/// The characters of `true`.
pub open spec fn true_chars() -> Seq<char> {
    seq!['t', 'r', 'u', 'e']
}

/// The characters of `false`.
pub open spec fn false_chars() -> Seq<char> {
    seq!['f', 'a', 'l', 's', 'e']
}

/// The string begins with the prefix.
pub open spec fn starts_with(string: Seq<char>, prefix: Seq<char>) -> bool {
    prefix.len() <= string.len() && string.take(prefix.len() as int) == prefix
}

/// How a boolean is written.
pub open spec fn spec_boolean_chars(value: bool) -> Seq<char> {
    if value {
        true_chars()
    } else {
        false_chars()
    }
}

/// The boolean that a string begins with, and what follows it; `None` where
/// the string begins with neither `true` nor `false`.
pub open spec fn spec_parse_boolean(string: Seq<char>) -> Option<(Seq<char>, bool)> {
    if starts_with(string, true_chars()) {
        Some((string.skip(4), true))
    } else if starts_with(string, false_chars()) {
        Some((string.skip(5), false))
    } else {
        None
    }
}

impl Boolean {
    /// The value of the boolean.
    pub closed spec fn view(self) -> bool {
        self.boolean
    }

    /// Initializes a new boolean.
    pub fn new(value: bool) -> (r: Boolean)
        ensures
            r@ == value,
    {
        Boolean { boolean: value }
    }

    /// Returns the value of the boolean.
    pub fn value(&self) -> (r: bool)
        ensures
            r == self@,
    {
        self.boolean
    }

    /// Returns the type name as a string.
    pub fn name_of_type() -> (r: &'static str)
        ensures
            r@ == seq!['b', 'o', 'o', 'l', 'e', 'a', 'n'],
    {
        let name = "boolean";
        proof {
            reveal_strlit("boolean");
            assert(name@ =~= seq!['b', 'o', 'o', 'l', 'e', 'a', 'n']);
        }
        name
    }

    /// Parses a string into a boolean: the boolean that the string begins
    /// with, and the rest of the string.
    pub fn parse(string: &str) -> (r: Result<(&str, Boolean), Error>)
        ensures
            match spec_parse_boolean(string@) {
                Some((rest, value)) => r matches Ok((remainder, boolean)) && remainder@ == rest
                    && boolean@ == value,
                None => r == Err::<(&str, Boolean), Error>(Error::Parse),
            },
    {
        let length = string.unicode_len();
        if length >= 4 && string.get_char(0) == 't' && string.get_char(1) == 'r' && string.get_char(
            2,
        ) == 'u' && string.get_char(3) == 'e' {
            assert(string@.take(4) =~= true_chars());
            assert(string@.subrange(4, length as int) =~= string@.skip(4));
            return Ok((string.substring_char(4, length), Boolean::new(true)));
        }
        assert(!starts_with(string@, true_chars())) by {
            if starts_with(string@, true_chars()) {
                assert(string@.take(4)[0] == 't');
                assert(string@.take(4)[1] == 'r');
                assert(string@.take(4)[2] == 'u');
                assert(string@.take(4)[3] == 'e');
            }
        }
        if length >= 5 && string.get_char(0) == 'f' && string.get_char(1) == 'a' && string.get_char(
            2,
        ) == 'l' && string.get_char(3) == 's' && string.get_char(4) == 'e' {
            assert(string@.take(5) =~= false_chars());
            assert(string@.subrange(5, length as int) =~= string@.skip(5));
            return Ok((string.substring_char(5, length), Boolean::new(false)));
        }
        assert(!starts_with(string@, false_chars())) by {
            if starts_with(string@, false_chars()) {
                assert(string@.take(5)[0] == 'f');
                assert(string@.take(5)[1] == 'a');
                assert(string@.take(5)[2] == 'l');
                assert(string@.take(5)[3] == 's');
                assert(string@.take(5)[4] == 'e');
            }
        }
        Err(Error::Parse)
    }

    /// Parses a string into a boolean: the string is `true` or `false`, and
    /// nothing else.
    pub fn from_str(string: &str) -> (r: Result<Boolean, Error>)
        ensures
            r matches Ok(boolean) ==> string@ == spec_boolean_chars(boolean@),
            r is Ok <==> string@ == true_chars() || string@ == false_chars(),
            r == Err::<Boolean, Error>(Error::Parse) <==> spec_parse_boolean(string@) is None,
            r matches Err(e) ==> e == Error::Parse || e == Error::TrailingCharacters,
    {
        match Self::parse(string) {
            Ok((remainder, object)) => {
                // Ensure the remainder is empty.
                if remainder.unicode_len() != 0 {
                    assert(string@ != true_chars() && string@ != false_chars());
                    return Err(Error::TrailingCharacters);
                }
                proof {
                    if object@ {
                        assert(string@ =~= string@.take(4));
                    } else {
                        assert(string@ =~= string@.take(5));
                    }
                }
                // Return the object.
                Ok(object)
            },
            Err(error) => {
                proof {
                    if string@ == true_chars() {
                        assert(string@.take(4) =~= string@);
                    }
                    if string@ == false_chars() {
                        assert(string@.take(5) =~= string@);
                    }
                }
                Err(error)
            },
        }
    }

    /// Returns how the boolean is written: `true` or `false`.
    pub fn to_string(&self) -> (r: String)
        ensures
            r@ == spec_boolean_chars(self@),
    {
        proof {
            reveal_strlit("true");
            reveal_strlit("false");
        }
        if self.boolean {
            let written = "true";
            assert(written@ =~= true_chars());
            written.to_string()
        } else {
            let written = "false";
            assert(written@ =~= false_chars());
            written.to_string()
        }
    }
}

/// A boolean that is written and read again is the same boolean.
pub proof fn boolean_written_and_parsed(value: bool)
    ensures
        spec_parse_boolean(spec_boolean_chars(value)) == Some((Seq::<char>::empty(), value)),
{
    if value {
        assert(true_chars().take(4) =~= true_chars());
        assert(true_chars().skip(4) =~= Seq::<char>::empty());
    } else {
        assert(false_chars().take(4)[0] == 'f');
        assert(false_chars().take(5) =~= false_chars());
        assert(false_chars().skip(5) =~= Seq::<char>::empty());
    }
}

} // verus!
