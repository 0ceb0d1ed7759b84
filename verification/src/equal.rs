//! The instruction that compares two registers.

use crate::error::Error;
use crate::literal::spec_is_equal;
use crate::literal::Literal;
use crate::stack::spec_load;
use crate::stack::Register;
use crate::stack::Stack;
use crate::wire::encode_u64;
use crate::wire::Wire;
use vstd::bytes::spec_u64_from_le_bytes;
use vstd::bytes::spec_u64_to_le_bytes;
use vstd::bytes::u64_from_le_bytes;
use vstd::prelude::*;
use vstd::slice::slice_subrange;
use vstd::string::StrSliceExecFns;
use vstd::string::StringExecFns;

verus! {

/// Whether a character is a decimal digit.
pub open spec fn is_digit(c: char) -> bool {
    '0' <= c && c <= '9'
}

/// The number that a decimal digit stands for.
pub open spec fn digit_value(c: char) -> nat {
    (c as int - '0' as int) as nat
}

/// The number of decimal digits at the head of a string.
pub open spec fn spec_digits_len(string: Seq<char>) -> nat
    decreases string.len(),
{
    if string.len() > 0 && is_digit(string[0]) {
        1 + spec_digits_len(string.skip(1))
    } else {
        0
    }
}

/// The number that a string of decimal digits stands for.
pub open spec fn spec_decimal(digits: Seq<char>) -> nat
    decreases digits.len(),
{
    if digits.len() == 0 {
        0
    } else {
        spec_decimal(digits.drop_last()) * 10 + digit_value(digits.last())
    }
}

/// The register that a string begins with, and what follows it: the letter
/// `r` and as many decimal digits as follow, at least one, which stand for a
/// number of 64 bits; `None` where the string begins with no such thing.
pub open spec fn spec_parse_register(string: Seq<char>) -> Option<(Seq<char>, u64)> {
    if string.len() > 0 && string[0] == 'r' {
        let count = spec_digits_len(string.skip(1));
        let value = spec_decimal(string.subrange(1, 1 + count as int));
        if count > 0 && value <= u64::MAX {
            Some((string.skip(1 + count as int), value as u64))
        } else {
            None
        }
    } else {
        None
    }
}

/// What follows a space at the head of a string; `None` where the string
/// begins with no space.
pub open spec fn spec_parse_space(string: Seq<char>) -> Option<Seq<char>> {
    if string.len() > 0 && string[0] == ' ' {
        Some(string.skip(1))
    } else {
        None
    }
}

/// An operation on two registers as plain values.
pub struct OperationView {
    /// The register that takes the outcome.
    pub destination: u64,
    /// The register of the first operand.
    pub first: u64,
    /// The register of the second operand.
    pub second: u64,
}

/// The operation on two registers that a string begins with, and what
/// follows it: three registers with one space between them, the destination
/// first; `None` where the string begins with no such thing.
pub open spec fn spec_parse_operation(string: Seq<char>) -> Option<(Seq<char>, OperationView)> {
    match spec_parse_register(string) {
        None => None,
        Some((rest, destination)) => match spec_parse_space(rest) {
            None => None,
            Some(rest) => match spec_parse_register(rest) {
                None => None,
                Some((rest, first)) => match spec_parse_space(rest) {
                    None => None,
                    Some(rest) => match spec_parse_register(rest) {
                        None => None,
                        Some((rest, second)) => Some(
                            (rest, OperationView { destination, first, second }),
                        ),
                    },
                },
            },
        },
    }
}

/// The run of digits at the head of a string goes on from any place inside
/// it.
proof fn digits_len_splits(string: Seq<char>, index: int)
    requires
        0 <= index <= string.len(),
        forall|i: int| 0 <= i < index ==> is_digit(string[i]),
    ensures
        spec_digits_len(string) == index + spec_digits_len(string.skip(index)),
    decreases index,
{
    if index > 0 {
        assert(string.skip(1).skip(index - 1) =~= string.skip(index));
        digits_len_splits(string.skip(1), index - 1);
    } else {
        assert(string.skip(0) =~= string);
    }
}

/// Returns whether a character is a decimal digit.
pub fn digit(c: char) -> (r: bool)
    ensures
        r == is_digit(c),
{
    '0' <= c && c <= '9'
}

/// Parses a string into a register: the register that the string begins
/// with, and the rest of the string.
pub fn parse_register(string: &str) -> (r: Result<(&str, Register), Error>)
    ensures
        match spec_parse_register(string@) {
            Some((rest, locator)) => r matches Ok((remainder, register)) && remainder@ == rest
                && register@ == locator,
            None => r == Err::<(&str, Register), Error>(Error::Parse),
        },
{
    let length = string.unicode_len();
    if length == 0 || string.get_char(0) != 'r' {
        return Err(Error::Parse);
    }
    let ghost body = string@.skip(1);
    let mut end: usize = 1;
    let mut value: u64 = 0;
    let mut overflow = false;
    assert(string@.subrange(1, 1) =~= Seq::<char>::empty());
    while end < length && digit(string.get_char(end))
        invariant
            1 <= end <= length,
            length == string@.len(),
            body == string@.skip(1),
            forall|i: int| 0 <= i < end - 1 ==> is_digit(body[i]),
            !overflow ==> value == spec_decimal(string@.subrange(1, end as int)),
            overflow ==> spec_decimal(string@.subrange(1, end as int)) > u64::MAX,
        decreases length - end,
    {
        let c = string.get_char(end);
        let d: u64 = (c as u32 - '0' as u32) as u64;
        proof {
            let next = string@.subrange(1, end + 1);
            assert(next.drop_last() =~= string@.subrange(1, end as int));
            assert(next.last() == c);
            assert(d == digit_value(c));
        }
        if !overflow {
            match value.checked_mul(10) {
                Some(shifted) => match shifted.checked_add(d) {
                    Some(sum) => {
                        value = sum;
                    },
                    None => {
                        overflow = true;
                    },
                },
                None => {
                    overflow = true;
                },
            }
        }
        end += 1;
    }
    proof {
        digits_len_splits(body, end - 1);
        assert(body.skip(end - 1) =~= string@.skip(end as int));
        assert(spec_digits_len(string@.skip(end as int)) == 0);
        assert(string@.subrange(end as int, length as int) =~= string@.skip(end as int));
    }
    if end == 1 || overflow {
        return Err(Error::Parse);
    }
    Ok((string.substring_char(end, length), Register::new(value)))
}

/// Parses a string into what follows the space that it begins with.
pub fn parse_space(string: &str) -> (r: Result<&str, Error>)
    ensures
        match spec_parse_space(string@) {
            Some(rest) => r matches Ok(remainder) && remainder@ == rest,
            None => r == Err::<&str, Error>(Error::Parse),
        },
{
    let length = string.unicode_len();
    if length == 0 || string.get_char(0) != ' ' {
        return Err(Error::Parse);
    }
    assert(string@.subrange(1, length as int) =~= string@.skip(1));
    Ok(string.substring_char(1, length))
}

/// The character of a decimal digit.
pub open spec fn spec_digit_char(digit: nat) -> char {
    ('0' as int + digit) as char
}

/// How a number is written in decimal digits, without leading zeros.
pub open spec fn spec_decimal_chars(value: nat) -> Seq<char>
    decreases value,
{
    if value < 10 {
        seq![spec_digit_char(value)]
    } else {
        spec_decimal_chars(value / 10).push(spec_digit_char(value % 10))
    }
}

/// How a register is written: the letter `r` and the register's number.
pub open spec fn spec_register_chars(register: u64) -> Seq<char> {
    seq!['r'] + spec_decimal_chars(register as nat)
}

/// How an operation on two registers is written: its three registers with
/// one space between them, the destination first.
pub open spec fn spec_operation_chars(operation: OperationView) -> Seq<char> {
    spec_register_chars(operation.destination) + seq![' '] + spec_register_chars(operation.first)
        + seq![' '] + spec_register_chars(operation.second)
}

/// The written form of a number is made of digits, at least one, which stand
/// for the number.
pub proof fn decimal_chars_are_digits(value: nat)
    ensures
        spec_decimal_chars(value).len() > 0,
        forall|i: int|
            0 <= i < spec_decimal_chars(value).len() ==> is_digit(
                #[trigger] spec_decimal_chars(value)[i],
            ),
        spec_decimal(spec_decimal_chars(value)) == value,
    decreases value,
{
    let written = spec_decimal_chars(value);
    if value < 10 {
        assert(written.drop_last() =~= Seq::<char>::empty());
        assert(spec_decimal(written.drop_last()) == 0);
    } else {
        decimal_chars_are_digits(value / 10);
        assert(written.drop_last() =~= spec_decimal_chars(value / 10));
        assert(written.last() == spec_digit_char(value % 10));
    }
}

/// A written register that is followed by no digit is read as the register,
/// and what follows it is left.
pub proof fn register_written_and_parsed(register: u64, rest: Seq<char>)
    requires
        rest.len() == 0 || !is_digit(rest[0]),
    ensures
        spec_parse_register(spec_register_chars(register) + rest) == Some((rest, register)),
{
    let digits = spec_decimal_chars(register as nat);
    let string = spec_register_chars(register) + rest;
    decimal_chars_are_digits(register as nat);
    let body = string.skip(1);
    assert(body =~= digits + rest);
    digits_len_splits(body, digits.len() as int);
    assert(body.skip(digits.len() as int) =~= rest);
    assert(spec_digits_len(rest) == 0);
    assert(string.subrange(1, 1 + digits.len() as int) =~= digits);
    assert(string.skip(1 + digits.len() as int) =~= rest);
}

/// A written operation is read as the operation, and nothing is left.
pub proof fn operation_written_and_parsed(operation: OperationView)
    ensures
        spec_parse_operation(spec_operation_chars(operation)) == Some(
            (Seq::<char>::empty(), operation),
        ),
{
    let second = spec_register_chars(operation.second);
    let after_first = seq![' '] + second;
    let first = spec_register_chars(operation.first) + after_first;
    let after_destination = seq![' '] + first;
    let string = spec_register_chars(operation.destination) + after_destination;
    assert(string =~= spec_operation_chars(operation));
    register_written_and_parsed(operation.destination, after_destination);
    assert(after_destination.skip(1) =~= first);
    register_written_and_parsed(operation.first, after_first);
    assert(after_first.skip(1) =~= second);
    register_written_and_parsed(operation.second, Seq::<char>::empty());
    assert(second + Seq::<char>::empty() =~= second);
}

/// Returns the string of a decimal digit.
fn digit_str(digit: u64) -> (r: &'static str)
    requires
        digit < 10,
    ensures
        r@ == seq![spec_digit_char(digit as nat)],
{
    proof {
        reveal_strlit("0");
        reveal_strlit("1");
        reveal_strlit("2");
        reveal_strlit("3");
        reveal_strlit("4");
        reveal_strlit("5");
        reveal_strlit("6");
        reveal_strlit("7");
        reveal_strlit("8");
        reveal_strlit("9");
    }
    let written = if digit == 0 {
        "0"
    } else if digit == 1 {
        "1"
    } else if digit == 2 {
        "2"
    } else if digit == 3 {
        "3"
    } else if digit == 4 {
        "4"
    } else if digit == 5 {
        "5"
    } else if digit == 6 {
        "6"
    } else if digit == 7 {
        "7"
    } else if digit == 8 {
        "8"
    } else {
        "9"
    };
    assert(written@ =~= seq![spec_digit_char(digit as nat)]);
    written
}

/// Returns how a number is written in decimal digits.
pub fn decimal_string(value: u64) -> (r: String)
    ensures
        r@ == spec_decimal_chars(value as nat),
    decreases value,
{
    if value < 10 {
        String::from_str(digit_str(value))
    } else {
        let r = decimal_string(value / 10).concat(digit_str(value % 10));
        assert(r@ =~= spec_decimal_chars(value as nat));
        r
    }
}

/// Returns how a register is written.
pub fn register_string(register: &Register) -> (r: String)
    ensures
        r@ == spec_register_chars(register@),
{
    let letter = "r";
    proof {
        reveal_strlit("r");
        assert(letter@ =~= seq!['r']);
    }
    let digits = decimal_string(register.locator());
    String::from_str(letter).concat(digits.as_str())
}

/// An operation on two registers, whose outcome goes to a third.
#[derive(Clone, Copy, Debug, PartialEq, Eq, Hash)]
pub struct BinaryOperation {
    destination: Register,
    first: Register,
    second: Register,
}

impl BinaryOperation {
    /// The operation as plain values.
    pub closed spec fn view(self) -> OperationView {
        OperationView {
            destination: self.destination@,
            first: self.first@,
            second: self.second@,
        }
    }

    /// Makes an operation of its registers.
    pub fn new(destination: Register, first: Register, second: Register) -> (r: BinaryOperation)
        ensures
            r@ == (OperationView { destination: destination@, first: first@, second: second@ }),
    {
        BinaryOperation { destination, first, second }
    }

    /// Returns the register that takes the outcome.
    pub fn destination(&self) -> (r: Register)
        ensures
            r@ == self@.destination,
    {
        self.destination
    }

    /// Returns the register of the first operand.
    pub fn first(&self) -> (r: Register)
        ensures
            r@ == self@.first,
    {
        self.first
    }

    /// Returns the register of the second operand.
    pub fn second(&self) -> (r: Register)
        ensures
            r@ == self@.second,
    {
        self.second
    }

    /// Returns how the operation is written.
    pub fn to_string(&self) -> (r: String)
        ensures
            r@ == spec_operation_chars(self@),
    {
        let space = " ";
        proof {
            reveal_strlit(" ");
            assert(space@ =~= seq![' ']);
        }
        let written = register_string(&self.destination);
        let written = written.concat(space);
        let written = written.concat(register_string(&self.first).as_str());
        let written = written.concat(space);
        written.concat(register_string(&self.second).as_str())
    }

    /// Parses a string into an operation: the operation that the string
    /// begins with, and the rest of the string.
    pub fn parse(string: &str) -> (r: Result<(&str, BinaryOperation), Error>)
        ensures
            match spec_parse_operation(string@) {
                Some((rest, operation)) => r matches Ok((remainder, parsed)) && remainder@ == rest
                    && parsed@ == operation,
                None => r == Err::<(&str, BinaryOperation), Error>(Error::Parse),
            },
    {
        let (string, destination) = match parse_register(string) {
            Ok(parsed) => parsed,
            Err(e) => {
                return Err(e);
            },
        };
        let string = match parse_space(string) {
            Ok(rest) => rest,
            Err(e) => {
                return Err(e);
            },
        };
        let (string, first) = match parse_register(string) {
            Ok(parsed) => parsed,
            Err(e) => {
                return Err(e);
            },
        };
        let string = match parse_space(string) {
            Ok(rest) => rest,
            Err(e) => {
                return Err(e);
            },
        };
        let (string, second) = match parse_register(string) {
            Ok(parsed) => parsed,
            Err(e) => {
                return Err(e);
            },
        };
        Ok((string, BinaryOperation::new(destination, first, second)))
    }
}

/// The registers after the two operands of an operation are compared and the
/// outcome is stored: `Register` where an operand holds nothing or the
/// destination cannot take a value, `InvalidInstruction` where the operands
/// cannot be compared.
pub open spec fn spec_evaluate(
    registers: Map<u64, Option<Literal>>,
    operation: OperationView,
) -> Result<Map<u64, Option<Literal>>, Error> {
    match (spec_load(registers, operation.first), spec_load(registers, operation.second)) {
        (Some(first), Some(second)) => match spec_is_equal(first, second) {
            Some(outcome) => if registers.contains_key(operation.destination)
                && registers[operation.destination] is None {
                Ok(registers.insert(operation.destination, Some(outcome)))
            } else {
                Err(Error::Register)
            },
            None => Err(Error::InvalidInstruction),
        },
        _ => Err(Error::Register),
    }
}

/// The registers after a register is initialized.
pub open spec fn spec_initialize(registers: Map<u64, Option<Literal>>, register: u64) -> Map<
    u64,
    Option<Literal>,
> {
    if registers.contains_key(register) {
        registers
    } else {
        registers.insert(register, None)
    }
}

/// Checks that `first` is equal to `second`, storing the outcome in
/// `destination`.
#[derive(Clone, Copy, Debug, PartialEq, Eq, Hash)]
pub struct Equal {
    operation: BinaryOperation,
}

impl Equal {
    /// The operation of the instruction, as plain values.
    pub closed spec fn view(self) -> OperationView {
        self.operation@
    }

    /// The instruction on the registers of the given numbers.
    pub closed spec fn spec_new(destination: u64, first: u64, second: u64) -> Equal {
        Equal {
            operation: BinaryOperation {
                destination: Register::spec_new(destination),
                first: Register::spec_new(first),
                second: Register::spec_new(second),
            },
        }
    }

    /// Makes the instruction of its operation.
    pub fn new(operation: BinaryOperation) -> (r: Equal)
        ensures
            r@ == operation@,
    {
        Equal { operation }
    }

    /// Returns the opcode as a string.
    pub fn mnemonic() -> (r: &'static str)
        ensures
            r@ == seq!['e', 'q'],
    {
        let opcode = "eq";
        proof {
            reveal_strlit("eq");
            assert(opcode@ =~= seq!['e', 'q']);
        }
        opcode
    }

    /// Parses a string into an 'eq' operation, and initializes the
    /// destination register.
    pub fn parse<'a>(string: &'a str, memory: &mut Stack) -> (r: Result<(&'a str, Equal), Error>)
        ensures
            match spec_parse_operation(string@) {
                Some((rest, operation)) => r matches Ok((remainder, parsed)) && remainder@ == rest
                    && parsed@ == operation && final(memory)@ == spec_initialize(
                    old(memory)@,
                    operation.destination,
                ),
                None => r == Err::<(&str, Equal), Error>(Error::Parse) && final(memory)@ == old(
                    memory,
                )@,
            },
    {
        // Parse the operation from the string.
        let (string, operation) = match BinaryOperation::parse(string) {
            Ok(parsed) => parsed,
            Err(e) => {
                return Err(e);
            },
        };
        // Initialize the destination register.
        memory.initialize(&operation.destination());
        // Return the operation.
        Ok((string, Equal { operation }))
    }

    /// Parses a string into an 'eq' operation: the string is an operation,
    /// and nothing else. The destination register of an operation that is
    /// read is initialized, also where the string goes on after it.
    pub fn from_str(string: &str, memory: &mut Stack) -> (r: Result<Equal, Error>)
        ensures
            match spec_parse_operation(string@) {
                Some((rest, operation)) => final(memory)@ == spec_initialize(
                    old(memory)@,
                    operation.destination,
                ) && if rest.len() == 0 {
                    r matches Ok(parsed) && parsed@ == operation
                } else {
                    r == Err::<Equal, Error>(Error::TrailingCharacters)
                },
                None => r == Err::<Equal, Error>(Error::Parse) && final(memory)@ == old(memory)@,
            },
    {
        match Self::parse(string, memory) {
            Ok((remainder, object)) => {
                if remainder.unicode_len() != 0 {
                    return Err(Error::TrailingCharacters);
                }
                Ok(object)
            },
            Err(error) => Err(error),
        }
    }

    /// Returns how the instruction is written: as its operation.
    pub fn to_string(&self) -> (r: String)
        ensures
            r@ == spec_operation_chars(self@),
    {
        self.operation.to_string()
    }

    /// Evaluates the operation in-place: loads the two operands, compares
    /// them, and stores the outcome in the destination. Where that cannot be
    /// done the memory is left as it is.
    pub fn evaluate(&self, memory: &mut Stack) -> (r: Result<(), Error>)
        ensures
            match spec_evaluate(old(memory)@, self@) {
                Ok(registers) => r is Ok && final(memory)@ == registers,
                Err(e) => r == Err::<(), Error>(e) && final(memory)@ == old(memory)@,
            },
    {
        // Load the values for the first and second operands.
        let first = match memory.load(&self.operation.first()) {
            Some(first) => first,
            None => {
                return Err(Error::Register);
            },
        };
        let second = match memory.load(&self.operation.second()) {
            Some(second) => second,
            None => {
                return Err(Error::Register);
            },
        };

        // Perform the operation.
        let result = match first.is_equal(&second) {
            Some(result) => result,
            None => {
                return Err(Error::InvalidInstruction);
            },
        };

        memory.store(&self.operation.destination(), result)
    }
}

/// An instruction of a program.
#[derive(Clone, Copy, Debug, PartialEq, Eq, Hash)]
pub enum Instruction {
    /// Checks that two registers hold equal values.
    Equal(Equal),
}

impl From<Equal> for Instruction {
    /// Converts the operation into an instruction.
    fn from(operation: Equal) -> (r: Instruction) {
        Instruction::Equal(operation)
    }
}

impl vstd::std_specs::convert::FromSpecImpl<Equal> for Instruction {
    open spec fn obeys_from_spec() -> bool {
        true
    }

    open spec fn from_spec(operation: Equal) -> Instruction {
        Instruction::Equal(operation)
    }
}

impl Wire for Equal {
    open spec fn spec_size() -> nat {
        24
    }

    open spec fn wire_wf(self) -> bool {
        true
    }

    open spec fn spec_encode(self) -> Seq<u8> {
        spec_u64_to_le_bytes(self@.destination) + spec_u64_to_le_bytes(self@.first)
            + spec_u64_to_le_bytes(self@.second)
    }

    open spec fn spec_decode(bytes: Seq<u8>) -> Option<Equal> {
        Some(
            Equal::spec_new(
                spec_u64_from_le_bytes(bytes.subrange(0, 8)),
                spec_u64_from_le_bytes(bytes.subrange(8, 16)),
                spec_u64_from_le_bytes(bytes.subrange(16, 24)),
            ),
        )
    }

    proof fn encoded_and_decoded(self) {
        vstd::bytes::lemma_auto_spec_u64_to_from_le_bytes();
        let bytes = self.spec_encode();
        assert(bytes.subrange(0, 8) =~= spec_u64_to_le_bytes(self@.destination));
        assert(bytes.subrange(8, 16) =~= spec_u64_to_le_bytes(self@.first));
        assert(bytes.subrange(16, 24) =~= spec_u64_to_le_bytes(self@.second));
        self.operation.destination.is_of_its_number();
        self.operation.first.is_of_its_number();
        self.operation.second.is_of_its_number();
    }

    fn size() -> (r: usize) {
        24
    }

    fn encode(&self, out: &mut Vec<u8>) {
        encode_u64(self.operation.destination().locator(), out);
        encode_u64(self.operation.first().locator(), out);
        encode_u64(self.operation.second().locator(), out);
        assert(out@ =~= old(out)@ + self.spec_encode());
    }

    fn decode(bytes: &[u8]) -> (r: Option<Equal>) {
        if bytes.len() != 24 {
            return None;
        }
        let destination = Register::new(u64_from_le_bytes(slice_subrange(bytes, 0, 8)));
        let first = Register::new(u64_from_le_bytes(slice_subrange(bytes, 8, 16)));
        let second = Register::new(u64_from_le_bytes(slice_subrange(bytes, 16, 24)));
        Some(Equal { operation: BinaryOperation { destination, first, second } })
    }
}

} // verus!
