//! The failure kinds of the swap assembler.

use vstd::prelude::*;

verus! {

/// Every way an assembly call can fail. A failure aborts the whole call:
/// no partial transaction is ever produced.
#[derive(Clone, Copy, Debug, PartialEq, Eq, Structural)]
pub enum SwapError {
    /// The call did not receive exactly the one expected authority account.
    BadAccountSet,
    /// The caller-supplied transaction bytes do not decode under the
    /// consensus transaction encoding.
    DecodeError,
    /// A supplied transaction-id string is not a well-formed reference.
    /// Carries the position of the offending reference among those supplied.
    InvalidReference(usize),
    /// Parallel parameter sequences (Rune txids vs. vouts) differ in length.
    ParameterMismatch,
    /// The leading opcode does not select a defined assembler.
    UnknownOperation,
}

} // verus!
