//! The memory of a program: registers that are initialized, and then assigned
//! once.

use crate::error::Error;
use crate::literal::Literal;
use std::collections::HashMap;
use vstd::prelude::*;

verus! {

broadcast use vstd::std_specs::hash::group_hash_axioms;

/// A register, named by its number.
#[derive(Clone, Copy, Debug, PartialEq, Eq, Hash)]
pub struct Register {
    locator: u64,
}

impl Register {
    /// The number of the register.
    pub closed spec fn view(self) -> u64 {
        self.locator
    }

    /// The register of the given number, as a value of specifications.
    pub closed spec fn spec_new(locator: u64) -> Register {
        Register { locator }
    }

    /// A register is the register of its number.
    pub proof fn is_of_its_number(self)
        ensures
            Register::spec_new(self@) == self,
    {
    }

    /// The register of the given number.
    pub fn new(locator: u64) -> (r: Register)
        ensures
            r == Register::spec_new(locator),
            r@ == locator,
    {
        Register { locator }
    }

    /// Returns the number of the register.
    pub fn locator(&self) -> (r: u64)
        ensures
            r == self@,
    {
        self.locator
    }
}

/// A stack of registers. An initialized register holds nothing until a value
/// is stored in it.
#[derive(Debug)]
pub struct Stack {
    registers: HashMap<u64, Option<Literal>>,
}

/// The value that the registers hold for a register, or `None` where the
/// register holds none.
pub open spec fn spec_load(registers: Map<u64, Option<Literal>>, register: u64) -> Option<Literal> {
    if registers.contains_key(register) {
        registers[register]
    } else {
        None
    }
}

impl Stack {
    /// What each initialized register holds.
    pub closed spec fn view(&self) -> Map<u64, Option<Literal>> {
        self.registers@
    }

    /// A stack without registers.
    pub fn new() -> (r: Stack)
        ensures
            r@ == Map::<u64, Option<Literal>>::empty(),
    {
        Stack { registers: HashMap::new() }
    }

    /// Initializes a register: a new register holds nothing, one that is
    /// there stays as it is.
    pub fn initialize(&mut self, register: &Register)
        ensures
            final(self)@ == if old(self)@.contains_key(register@) {
                old(self)@
            } else {
                old(self)@.insert(register@, None)
            },
    {
        let locator = register.locator();
        if !self.registers.contains_key(&locator) {
            self.registers.insert(locator, None);
        }
    }

    /// Returns the value that a register holds, or `None` where it holds
    /// none.
    pub fn load(&self, register: &Register) -> (r: Option<Literal>)
        ensures
            r == spec_load(self@, register@),
    {
        let locator = register.locator();
        match self.registers.get(&locator) {
            Some(value) => *value,
            None => None,
        }
    }

    /// Stores a value in a register that is initialized and holds nothing
    /// yet; any other register is left as it is, and `Register` is reported.
    pub fn store(&mut self, register: &Register, literal: Literal) -> (r: Result<(), Error>)
        ensures
            old(self)@.contains_key(register@) && old(self)@[register@] is None ==> r is Ok
                && final(self)@ == old(self)@.insert(register@, Some(literal)),
            !(old(self)@.contains_key(register@) && old(self)@[register@] is None) ==> r == Err::<
                (),
                Error,
            >(Error::Register) && final(self)@ == old(self)@,
    {
        let locator = register.locator();
        let vacant = match self.registers.get(&locator) {
            Some(value) => value.is_none(),
            None => false,
        };
        if vacant {
            self.registers.insert(locator, Some(literal));
            Ok(())
        } else {
            Err(Error::Register)
        }
    }
}

impl Default for Stack {
    /// A stack without registers.
    fn default() -> (r: Stack)
        ensures
            r@ == Map::<u64, Option<Literal>>::empty(),
    {
        Stack::new()
    }
}

} // verus!
