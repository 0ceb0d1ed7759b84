//! What can go wrong in the library.

use vstd::prelude::*;

verus! {

/// The failures that the library reports.
#[derive(Clone, Copy, Debug, PartialEq, Eq, Structural)]
pub enum Error {
    /// A hash to the curve failed on its input.
    HashToGroup,
    /// A hash to the scalar field failed on its input.
    HashToScalar,
    /// A hash to the base field failed on its input.
    HashToField,
    /// Fewer keys were supplied than there are input slots that need one, or
    /// an authorization does not have the shape that the parameters ask for.
    MalformedAuthorization,
    /// A signature could not be made.
    Signing,
    /// The number of executables is not the number of records.
    ExecutableCount,
    /// The local data, the program commitment or an encrypted record could
    /// not be derived.
    Derivation,
    /// A program could not be executed on the local data.
    ProgramExecution,
    /// The ledger could not give its digest or a membership witness.
    LedgerAccess,
    /// The parameters do not hold the proving key of the inner circuit.
    MissingInnerProvingKey,
    /// The parameters do not hold the proving key of the outer circuit.
    MissingOuterProvingKey,
    /// The proof backend failed.
    ProofBackend,
    /// A proof that was just made does not pass its own verification.
    InternalInconsistency,
    /// A string does not start with what was to be parsed.
    Parse,
    /// A string goes on after what was parsed.
    TrailingCharacters,
    /// A register was read before it was assigned, or assigned twice, or
    /// never initialized.
    Register,
    /// An instruction was given operands that it cannot take.
    InvalidInstruction,
}

} // verus!
