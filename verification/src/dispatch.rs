//! Selection of an assembler by opcode, and the account-set check.
//!
//! The surrounding runtime hands an opcode byte and a decoded parameter
//! structure; this module holds the decisions that belong to the core: which
//! assembler a given opcode selects, that exactly one authority account must
//! be present, and the single-shot transform from a decoded instruction to a
//! signing request.

use vstd::prelude::*;

use crate::assemble::{AuthorityKey, SigningRequest, SwapInscriptionRuneParams,
    SwapRuneInscriptionParams, inscription_swap_result, rune_swap_result, swap_inscription_rune,
    swap_rune_inscription};
use crate::errors::SwapError;

verus! {

/// The opcode selecting the inscription-to-Rune assembler.
pub const OPCODE_SWAP_INSCRIPTION_RUNE: u8 = 0;

/// The opcode selecting the Rune-to-inscription assembler.
pub const OPCODE_SWAP_RUNE_INSCRIPTION: u8 = 1;

/// The two defined swap directions.
#[derive(Clone, Copy, Debug, PartialEq, Eq, Structural)]
pub enum SwapOp {
    InscriptionForRunes,
    RunesForInscription,
}

/// A decoded instruction: one swap direction with its parameters.
pub enum SwapInstruction {
    InscriptionForRunes(SwapInscriptionRuneParams),
    RunesForInscription(SwapRuneInscriptionParams),
}

/// Maps an opcode byte to the assembler it selects; any byte other than the
/// two defined values is an unknown operation.
pub fn parse_opcode(opcode: u8) -> (r: Result<SwapOp, SwapError>)
    ensures
        opcode == OPCODE_SWAP_INSCRIPTION_RUNE
            ==> r == Ok::<SwapOp, SwapError>(SwapOp::InscriptionForRunes),
        opcode == OPCODE_SWAP_RUNE_INSCRIPTION
            ==> r == Ok::<SwapOp, SwapError>(SwapOp::RunesForInscription),
        opcode != OPCODE_SWAP_INSCRIPTION_RUNE && opcode != OPCODE_SWAP_RUNE_INSCRIPTION
            ==> r == Err::<SwapOp, SwapError>(SwapError::UnknownOperation),
{
    if opcode == OPCODE_SWAP_INSCRIPTION_RUNE {
        Ok(SwapOp::InscriptionForRunes)
    } else if opcode == OPCODE_SWAP_RUNE_INSCRIPTION {
        Ok(SwapOp::RunesForInscription)
    } else {
        Err(SwapError::UnknownOperation)
    }
}

/// Accepts exactly the one expected authority account reference.
pub fn validate_account_count(n_accounts: usize) -> (r: Result<(), SwapError>)
    ensures
        n_accounts == 1 ==> r == Ok::<(), SwapError>(()),
        n_accounts != 1 ==> r == Err::<(), SwapError>(SwapError::BadAccountSet),
{
    if n_accounts == 1 {
        Ok(())
    } else {
        Err(SwapError::BadAccountSet)
    }
}

/// Runs the assembler that the decoded instruction selects, for the given
/// authority identity.
pub fn process_swap(instruction: &SwapInstruction, authority: &AuthorityKey) -> (r: Result<
    SigningRequest,
    SwapError,
>)
    ensures
        instruction matches SwapInstruction::InscriptionForRunes(p)
            ==> inscription_swap_result(*p, *authority, r),
        instruction matches SwapInstruction::RunesForInscription(p)
            ==> rune_swap_result(*p, *authority, r),
{
    match instruction {
        SwapInstruction::InscriptionForRunes(p) => swap_inscription_rune(p, authority),
        SwapInstruction::RunesForInscription(p) => swap_rune_inscription(p, authority),
    }
}

} // verus!
