//! The consensus transaction codec, behind trusted items.
//!
//! The wire format itself belongs to the `bitcoin` crate; this module only
//! names its results so that the assemblers' contracts can be exact. What a
//! byte string decodes to, and what a transaction shape encodes to, are
//! deterministic functions of their arguments, so each gets an uninterpreted
//! name that the trusted wrappers tie to the real calls.

use vstd::prelude::*;

use crate::errors::SwapError;
use crate::tx::{OutPoint, Transaction, TransactionV, TxInput, TxOutput, tx_wf};
use bitcoin::OutPoint as BtcOutPoint;
use bitcoin::Transaction as BtcTransaction;
use bitcoin::TxIn as BtcTxIn;
use bitcoin::TxOut as BtcTxOut;
use std::str::FromStr;

verus! {

/// The input and output lists of the transaction that `bytes` encodes under
/// the consensus transaction codec, or `None` where `bytes` is not a valid
/// encoding.
pub uninterp spec fn tx_decode(bytes: Seq<u8>) -> Option<TransactionV>;

/// The consensus encoding of the version-2, zero-lock-time transaction with
/// the given input and output lists.
pub uninterp spec fn tx_encode(t: TransactionV) -> Seq<u8>;

/// The canonical 32-byte form of the transaction id that the string names,
/// or `None` where the string is not a well-formed transaction id.
pub uninterp spec fn txid_decode(s: Seq<char>) -> Option<Seq<u8>>;

/// Relies on `bitcoin::consensus::deserialize::<bitcoin::Transaction>`: it
/// returns the decoded transaction exactly when the bytes are a valid
/// consensus encoding consumed in full. Every decoded input carries a
/// 32-byte txid, taken here in its canonical internal byte order (the
/// consensus encoding of a `bitcoin::Txid` is exactly those 32 bytes).
#[verifier::external_body]
pub(crate) fn decode_transaction(bytes: &Vec<u8>) -> (r: Result<Transaction, SwapError>)
    ensures
        r is Ok <==> tx_decode(bytes@) is Some,
        r matches Ok(t) ==> t@ == tx_decode(bytes@)->Some_0 && tx_wf(t@),
        r matches Err(e) ==> e == SwapError::DecodeError,
{
    let tx: BtcTransaction = match bitcoin::consensus::deserialize(bytes.as_slice()) {
        Ok(t) => t,
        Err(_) => return Err(SwapError::DecodeError),
    };
    let inputs = tx.input.iter().map(|i| TxInput {
        previous_output: OutPoint {
            txid: bitcoin::consensus::serialize(&i.previous_output.txid),
            vout: i.previous_output.vout,
        },
        script_sig: i.script_sig.to_bytes(), sequence: i.sequence.0, witness: i.witness.to_vec(),
    }).collect();
    let outputs = tx.output.iter().map(|o| TxOutput { value: o.value.to_sat(), script_pubkey: o.script_pubkey.to_bytes() }).collect();
    Ok(Transaction { inputs, outputs })
}

/// Relies on `bitcoin::consensus::serialize::<bitcoin::Transaction>`: it
/// returns the consensus encoding of the version-2, zero-lock-time
/// transaction carrying exactly the given inputs and outputs. Each 32-byte
/// txid is read back into a `bitcoin::Txid` through the same consensus
/// codec, which consumes exactly a 32-byte buffer.
#[verifier::external_body]
pub(crate) fn encode_transaction(t: &Transaction) -> (r: Vec<u8>)
    requires
        tx_wf(t@),
    ensures
        r@ == tx_encode(t@),
{
    let tx = BtcTransaction {
        version: bitcoin::transaction::Version::TWO,
        lock_time: bitcoin::absolute::LockTime::ZERO,
        input: t.inputs.iter().map(|i| BtcTxIn {
            previous_output: BtcOutPoint {
                txid: bitcoin::consensus::deserialize(&i.previous_output.txid).unwrap(),
                vout: i.previous_output.vout,
            },
            script_sig: bitcoin::ScriptBuf::from_bytes(i.script_sig.clone()),
            sequence: bitcoin::Sequence(i.sequence), witness: bitcoin::Witness::from(i.witness.clone()),
        }).collect(),
        output: t.outputs.iter().map(|o| BtcTxOut { value: bitcoin::Amount::from_sat(o.value), script_pubkey: bitcoin::ScriptBuf::from_bytes(o.script_pubkey.clone()) }).collect(),
    };
    bitcoin::consensus::serialize(&tx)
}

/// Relies on `bitcoin::Txid::from_str` and `to_byte_array`: the parse
/// succeeds exactly on a well-formed 64-digit hex transaction id, and then
/// yields its canonical 32-byte array.
#[verifier::external_body]
pub(crate) fn decode_txid(s: &str) -> (r: Option<Vec<u8>>)
    ensures
        r is Some <==> txid_decode(s@) is Some,
        r matches Some(b) ==> b@ == txid_decode(s@)->Some_0 && b@.len() == 32,
{
    match bitcoin::Txid::from_str(s) {
        Ok(t) => Some(<bitcoin::Txid as bitcoin::hashes::Hash>::to_byte_array(t).to_vec()),
        Err(_) => None,
    }
}

} // verus!
