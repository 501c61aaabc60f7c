//! Assembly of unsigned Bitcoin-style swap transactions.
//!
//! The library builds the combined transaction for an atomic swap between a
//! Bitcoin inscription (one distinguished UTXO) and a set of Rune UTXOs, and
//! designates which input indices a custodial signing authority must
//! counter-sign before broadcast. Both assemblers are pure transforms from
//! decoded parameters to serialized transaction bytes plus an ordered list of
//! signer designations.

pub mod assemble;
pub mod codec;
pub mod dispatch;
pub mod errors;
pub mod tx;
