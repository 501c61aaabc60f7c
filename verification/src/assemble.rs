//! The two swap assemblers.
//!
//! Each assembler is a pure transform from decoded parameters to serialized
//! transaction bytes plus an ordered list of signer designations. The
//! inscription-to-Rune assembler places the one custodial input first and
//! designates index 0; the Rune-to-inscription assembler appends the N
//! custodial inputs after the user's M inputs and designates indices
//! M .. M+N-1. Every failure aborts the whole call: no partial transaction
//! is ever produced.

use vstd::prelude::*;

use crate::codec::{decode_transaction, decode_txid, encode_transaction, tx_decode, tx_encode,
    txid_decode};
use crate::errors::SwapError;
use crate::tx::{OutPoint, OutPointV, Transaction, TransactionV, custodial_input,
    custodial_input_v, clone_bytes, clone_input, clone_output, outpoint_wf, tx_wf, TxInput,
    TxOutput};

verus! {

/// Parameters of an inscription-to-Rune swap: the custodial inscription
/// UTXO and the caller's partial transaction bytes.
pub struct SwapInscriptionRuneParams {
    /// The transaction id of the inscription UTXO being spent.
    pub inscription_txid: String,
    /// The output index of the inscription UTXO being spent.
    pub inscription_vout: u8,
    /// The caller's partial transaction with the user's inputs and outputs.
    pub user_swap_psbt: Vec<u8>,
}

/// Parameters of a Rune-to-inscription swap: parallel lists naming the
/// custodial Rune UTXOs, and the caller's partial transaction bytes.
pub struct SwapRuneInscriptionParams {
    /// Transaction ids of the Rune UTXOs to be spent, one per UTXO.
    pub rune_txids: Vec<String>,
    /// Output indices of the Rune UTXOs, matched by position with the ids.
    pub rune_vouts: Vec<u8>,
    /// The caller's partial transaction with the user's inputs and outputs.
    pub user_swap_psbt: Vec<u8>,
}

/// The identity of the custodial signing authority.
#[derive(Clone, Copy)]
pub struct AuthorityKey {
    pub bytes: [u8; 32],
}

/// One instruction to the external signing collaborator: sign the input at
/// this position with this identity.
pub struct SignerDesignation {
    pub input_index: usize,
    pub signer: AuthorityKey,
}

/// What an assembler hands to the signing collaborator: the serialized
/// transaction and the ordered designation list.
pub struct SigningRequest {
    pub tx_bytes: Vec<u8>,
    pub designations: Vec<SignerDesignation>,
}

/// The combined transaction of an inscription-to-Rune swap: the custodial
/// input first, then the user's inputs in order, with the user's outputs
/// unchanged.
pub open spec fn inscription_swap_tx_v(custodial: OutPointV, user: TransactionV) -> TransactionV {
    TransactionV {
        inputs: seq![custodial_input_v(custodial)] + user.inputs,
        outputs: user.outputs,
    }
}

/// The combined transaction of a Rune-to-inscription swap: the user's inputs
/// in order, then one custodial input per outpoint in pair order, with the
/// user's outputs unchanged.
pub open spec fn rune_swap_tx_v(custodial: Seq<OutPointV>, user: TransactionV) -> TransactionV {
    TransactionV {
        inputs: user.inputs + custodial.map_values(|o: OutPointV| custodial_input_v(o)),
        outputs: user.outputs,
    }
}

/// The mathematical values of a list of outpoints.
pub open spec fn outpoint_views(s: Seq<OutPoint>) -> Seq<OutPointV> {
    s.map_values(|o: OutPoint| o@)
}

/// The outpoint values named by parallel txid/vout lists, meaningful where
/// every txid decodes.
pub open spec fn rune_outpoints_v(txids: Seq<Seq<char>>, vouts: Seq<u8>) -> Seq<OutPointV> {
    Seq::new(
        txids.len(),
        |i: int| OutPointV { txid: txid_decode(txids[i])->Some_0, vout: vouts[i] as u32 },
    )
}

/// Every transaction id in the list is well formed.
pub open spec fn all_txids_decode(txids: Seq<Seq<char>>) -> bool {
    forall|i: int| 0 <= i < txids.len() ==> (#[trigger] txid_decode(txids[i])) is Some
}

/// `k` is the position of the first malformed transaction id in the list.
pub open spec fn is_first_bad_txid(txids: Seq<Seq<char>>, k: int) -> bool {
    &&& 0 <= k < txids.len()
    &&& txid_decode(txids[k]) is None
    &&& forall|j: int| 0 <= j < k ==> (#[trigger] txid_decode(txids[j])) is Some
}

/// A successful inscription-to-Rune result: the bytes encode the combined
/// transaction, and the single designation names input 0 and the authority.
pub open spec fn inscription_swap_ok(
    params: SwapInscriptionRuneParams,
    authority: AuthorityKey,
    out: SigningRequest,
) -> bool {
    let user = tx_decode(params.user_swap_psbt@)->Some_0;
    let custodial = OutPointV {
        txid: txid_decode(params.inscription_txid@)->Some_0,
        vout: params.inscription_vout as u32,
    };
    &&& out.tx_bytes@ == tx_encode(inscription_swap_tx_v(custodial, user))
    &&& out.designations@.len() == 1
    &&& out.designations@[0].input_index == 0
    &&& out.designations@[0].signer == authority
}

/// The full contract of the inscription-to-Rune assembler: which inputs
/// succeed, which error each rejected input yields, and what success carries.
pub open spec fn inscription_swap_result(
    params: SwapInscriptionRuneParams,
    authority: AuthorityKey,
    r: Result<SigningRequest, SwapError>,
) -> bool {
    let decoded = tx_decode(params.user_swap_psbt@);
    let txid = txid_decode(params.inscription_txid@);
    &&& decoded is None
        ==> r == Err::<SigningRequest, SwapError>(SwapError::DecodeError)
    &&& decoded is Some && txid is None
        ==> r == Err::<SigningRequest, SwapError>(SwapError::InvalidReference(0))
    &&& decoded is Some && txid is Some
        ==> (r matches Ok(out) && inscription_swap_ok(params, authority, out))
}

/// A successful Rune-to-inscription result: the bytes encode the combined
/// transaction, and the N designations name indices M .. M+N-1, each with
/// the authority, where M is the user's input count.
pub open spec fn rune_swap_ok(
    params: SwapRuneInscriptionParams,
    authority: AuthorityKey,
    out: SigningRequest,
) -> bool {
    let user = tx_decode(params.user_swap_psbt@)->Some_0;
    let custodial = rune_outpoints_v(params.rune_txids.deep_view(), params.rune_vouts@);
    let m = user.inputs.len();
    let n = params.rune_txids@.len();
    &&& out.tx_bytes@ == tx_encode(rune_swap_tx_v(custodial, user))
    &&& out.designations@.len() == n
    &&& forall|i: int|
        0 <= i < n ==> (#[trigger] out.designations@[i]).input_index == m + i
            && out.designations@[i].signer == authority
}

/// The full contract of the Rune-to-inscription assembler: the length check
/// comes first, then the partial-transaction decode, then the per-pair txid
/// decode in order, failing on the first malformed entry; success carries
/// the combined transaction and its designations.
pub open spec fn rune_swap_result(
    params: SwapRuneInscriptionParams,
    authority: AuthorityKey,
    r: Result<SigningRequest, SwapError>,
) -> bool {
    let txids = params.rune_txids.deep_view();
    let lens_match = params.rune_txids@.len() == params.rune_vouts@.len();
    let decoded = tx_decode(params.user_swap_psbt@);
    &&& !lens_match ==> r == Err::<SigningRequest, SwapError>(SwapError::ParameterMismatch)
    &&& lens_match && decoded is None
        ==> r == Err::<SigningRequest, SwapError>(SwapError::DecodeError)
    &&& lens_match && decoded is Some && !all_txids_decode(txids)
        ==> (r matches Err(e) && e matches SwapError::InvalidReference(k)
            && is_first_bad_txid(txids, k as int))
    &&& lens_match && decoded is Some && all_txids_decode(txids)
        ==> (r matches Ok(out) && rune_swap_ok(params, authority, out))
}

/// Builds the combined inscription-to-Rune transaction: the custodial input
/// first, then the user's inputs and outputs copied verbatim in order.
pub fn build_inscription_swap_tx(custodial: OutPoint, user: &Transaction) -> (t: Transaction)
    ensures
        t@ == inscription_swap_tx_v(custodial@, user@),
{
    let ghost custodial_v = custodial@;
    let mut inputs: Vec<TxInput> = Vec::new();
    inputs.push(custodial_input(custodial));
    let mut i: usize = 0;
    while i < user.inputs.len()
        invariant
            i <= user.inputs@.len(),
            inputs@.len() == 1 + i,
            inputs@[0]@ == custodial_input_v(custodial_v),
            forall|j: int| 0 <= j < i ==> #[trigger] inputs@[j + 1]@ == user@.inputs[j],
        decreases user.inputs@.len() - i,
    {
        inputs.push(clone_input(&user.inputs[i]));
        i = i + 1;
    }
    let mut outputs: Vec<TxOutput> = Vec::new();
    let mut k: usize = 0;
    while k < user.outputs.len()
        invariant
            k <= user.outputs@.len(),
            outputs@.len() == k,
            forall|j: int| 0 <= j < k ==> #[trigger] outputs@[j]@ == user@.outputs[j],
        decreases user.outputs@.len() - k,
    {
        outputs.push(clone_output(&user.outputs[k]));
        k = k + 1;
    }
    let t = Transaction { inputs, outputs };
    proof {
        let spec_t = inscription_swap_tx_v(custodial_v, user@);
        assert forall|j: int| 0 <= j < t.inputs@.len() implies t.inputs@[j]@ == spec_t.inputs[j] by {
            if j > 0 {
                assert(t.inputs@[(j - 1) + 1]@ == user@.inputs[j - 1]);
            }
        }
        assert(t@.inputs =~= spec_t.inputs);
        assert(t@.outputs =~= spec_t.outputs);
        assert(t@ =~= spec_t);
    }
    t
}

/// Builds the combined Rune-to-inscription transaction: the user's inputs
/// and outputs copied verbatim in order, then one fresh custodial input per
/// outpoint, in pair order.
pub fn build_rune_swap_tx(user: &Transaction, custodial: &Vec<OutPoint>) -> (t: Transaction)
    ensures
        t@ == rune_swap_tx_v(outpoint_views(custodial@), user@),
{
    let mut inputs: Vec<TxInput> = Vec::new();
    let mut i: usize = 0;
    while i < user.inputs.len()
        invariant
            i <= user.inputs@.len(),
            inputs@.len() == i,
            forall|j: int| 0 <= j < i ==> #[trigger] inputs@[j]@ == user@.inputs[j],
        decreases user.inputs@.len() - i,
    {
        inputs.push(clone_input(&user.inputs[i]));
        i = i + 1;
    }
    let m = inputs.len();
    let mut c: usize = 0;
    while c < custodial.len()
        invariant
            c <= custodial@.len(),
            m == user.inputs@.len(),
            inputs@.len() == m + c,
            forall|j: int| 0 <= j < m ==> #[trigger] inputs@[j]@ == user@.inputs[j],
            forall|j: int| 0 <= j < c
                ==> #[trigger] inputs@[m + j]@ == custodial_input_v(custodial@[j]@),
        decreases custodial@.len() - c,
    {
        let outpoint = OutPoint {
            txid: clone_bytes(&custodial[c].txid),
            vout: custodial[c].vout,
        };
        inputs.push(custodial_input(outpoint));
        c = c + 1;
    }
    let mut outputs: Vec<TxOutput> = Vec::new();
    let mut k: usize = 0;
    while k < user.outputs.len()
        invariant
            k <= user.outputs@.len(),
            outputs@.len() == k,
            forall|j: int| 0 <= j < k ==> #[trigger] outputs@[j]@ == user@.outputs[j],
        decreases user.outputs@.len() - k,
    {
        outputs.push(clone_output(&user.outputs[k]));
        k = k + 1;
    }
    let t = Transaction { inputs, outputs };
    proof {
        let ghost ops = outpoint_views(custodial@);
        let spec_t = rune_swap_tx_v(ops, user@);
        let ghost um = user@.inputs.len() as int;
        assert forall|j: int| 0 <= j < t.inputs@.len() implies t.inputs@[j]@ == spec_t.inputs[j] by {
            if j >= um {
                assert(t.inputs@[um + (j - um)]@ == custodial_input_v(custodial@[j - um]@));
                assert(ops[j - um] == custodial@[j - um]@);
                assert(spec_t.inputs[j] == custodial_input_v(ops[j - um]));
            }
        }
        assert(t@.inputs =~= spec_t.inputs);
        assert(t@.outputs =~= spec_t.outputs);
        assert(t@ =~= spec_t);
    }
    t
}

/// Assembles the inscription-to-Rune swap: decodes the caller's partial
/// transaction and the custodial txid, places the custodial input at index
/// 0 followed by the user's inputs and outputs, and designates exactly
/// input 0 for the authority.
pub fn swap_inscription_rune(
    params: &SwapInscriptionRuneParams,
    authority: &AuthorityKey,
) -> (r: Result<SigningRequest, SwapError>)
    ensures
        inscription_swap_result(*params, *authority, r),
{
    let user = match decode_transaction(&params.user_swap_psbt) {
        Ok(t) => t,
        Err(_) => {
            return Err(SwapError::DecodeError);
        },
    };
    let txid = match decode_txid(params.inscription_txid.as_str()) {
        Some(b) => b,
        None => {
            return Err(SwapError::InvalidReference(0));
        },
    };
    let outpoint = OutPoint { txid, vout: params.inscription_vout as u32 };
    let tx = build_inscription_swap_tx(outpoint, &user);
    proof {
        assert forall|i: int| 0 <= i < tx@.inputs.len() implies outpoint_wf(
            #[trigger] tx@.inputs[i].previous_output,
        ) by {
            if i > 0 {
                assert(tx@.inputs[i] == user@.inputs[i - 1]);
            }
        }
    }
    let tx_bytes = encode_transaction(&tx);
    let mut designations: Vec<SignerDesignation> = Vec::new();
    designations.push(SignerDesignation { input_index: 0, signer: *authority });
    Ok(SigningRequest { tx_bytes, designations })
}

/// Assembles the Rune-to-inscription swap: checks the parallel lists match,
/// decodes the caller's partial transaction and every custodial txid in
/// order, appends one custodial input per pair after the user's inputs, and
/// designates exactly those trailing indices for the authority.
pub fn swap_rune_inscription(
    params: &SwapRuneInscriptionParams,
    authority: &AuthorityKey,
) -> (r: Result<SigningRequest, SwapError>)
    ensures
        rune_swap_result(*params, *authority, r),
{
    let ghost txids = params.rune_txids.deep_view();
    if params.rune_txids.len() != params.rune_vouts.len() {
        return Err(SwapError::ParameterMismatch);
    }
    let user = match decode_transaction(&params.user_swap_psbt) {
        Ok(t) => t,
        Err(_) => {
            return Err(SwapError::DecodeError);
        },
    };
    let mut outpoints: Vec<OutPoint> = Vec::new();
    let mut i: usize = 0;
    while i < params.rune_txids.len()
        invariant
            txids == params.rune_txids.deep_view(),
            i <= params.rune_txids@.len(),
            params.rune_vouts@.len() == params.rune_txids@.len(),
            tx_decode(params.user_swap_psbt@) is Some,
            outpoints@.len() == i,
            forall|j: int| 0 <= j < i ==> (#[trigger] txid_decode(txids[j])) is Some,
            forall|j: int| 0 <= j < i
                ==> #[trigger] outpoints@[j]@ == rune_outpoints_v(txids, params.rune_vouts@)[j],
            forall|j: int| 0 <= j < i ==> (#[trigger] outpoints@[j]@.txid).len() == 32,
        decreases params.rune_txids@.len() - i,
    {
        proof {
            assert(txids[i as int] == params.rune_txids@[i as int]@);
        }
        match decode_txid(params.rune_txids[i].as_str()) {
            Some(txid) => {
                outpoints.push(OutPoint { txid, vout: params.rune_vouts[i] as u32 });
                proof {
                    assert(outpoints@[i as int]@ =~= rune_outpoints_v(
                        txids,
                        params.rune_vouts@,
                    )[i as int]);
                }
            },
            None => {
                proof {
                    assert(txid_decode(txids[i as int]) is None);
                    assert(!all_txids_decode(txids));
                    assert(is_first_bad_txid(txids, i as int));
                }
                return Err(SwapError::InvalidReference(i));
            },
        }
        i = i + 1;
    }
    let tx = build_rune_swap_tx(&user, &outpoints);
    proof {
        assert(outpoint_views(outpoints@) =~= rune_outpoints_v(txids, params.rune_vouts@));
    }
    proof {
        assert forall|k: int| 0 <= k < tx@.inputs.len() implies outpoint_wf(
            #[trigger] tx@.inputs[k].previous_output,
        ) by {
            let m = user@.inputs.len() as int;
            if k < m {
                assert(tx@.inputs[k] == user@.inputs[k]);
            } else {
                assert(tx@.inputs[k] == custodial_input_v(outpoint_views(outpoints@)[k - m]));
                assert(outpoint_views(outpoints@)[k - m] == outpoints@[k - m]@);
                assert((outpoints@[k - m]@.txid).len() == 32);
            }
        }
    }
    let tx_bytes = encode_transaction(&tx);
    let m = user.inputs.len();
    let total = tx.inputs.len();
    proof {
        assert(tx@.inputs.len() == user@.inputs.len() + outpoint_views(outpoints@).len());
        assert(m == user@.inputs.len());
        assert(total == tx@.inputs.len());
    }
    let mut designations: Vec<SignerDesignation> = Vec::new();
    let mut d: usize = 0;
    while d < outpoints.len()
        invariant
            m + outpoints@.len() == total,
            d <= outpoints@.len(),
            designations@.len() == d,
            forall|j: int| 0 <= j < d
                ==> (#[trigger] designations@[j]).input_index == m + j
                    && designations@[j].signer == *authority,
        decreases outpoints@.len() - d,
    {
        designations.push(SignerDesignation { input_index: m + d, signer: *authority });
        d = d + 1;
    }
    Ok(SigningRequest { tx_bytes, designations })
}

/// Law: the inscription-to-Rune transaction has the custodial input at
/// index 0, the user's inputs at indices 1 .. M in order, one more input
/// than the user supplied, and the user's outputs unchanged.
pub proof fn lemma_inscription_swap_shape(custodial: OutPointV, user: TransactionV)
    ensures
        inscription_swap_tx_v(custodial, user).inputs.len() == 1 + user.inputs.len(),
        inscription_swap_tx_v(custodial, user).inputs[0] == custodial_input_v(custodial),
        inscription_swap_tx_v(custodial, user).inputs[0].previous_output == custodial,
        forall|i: int| 0 <= i < user.inputs.len()
            ==> inscription_swap_tx_v(custodial, user).inputs[i + 1] == #[trigger] user.inputs[i],
        inscription_swap_tx_v(custodial, user).outputs == user.outputs,
{
}

/// Law: the Rune-to-inscription transaction has the user's M inputs at
/// indices 0 .. M in order, the custodial inputs at indices M .. M+N in
/// pair order, M + N inputs in all, and the user's outputs unchanged.
pub proof fn lemma_rune_swap_shape(custodial: Seq<OutPointV>, user: TransactionV)
    ensures
        rune_swap_tx_v(custodial, user).inputs.len() == user.inputs.len() + custodial.len(),
        forall|i: int| 0 <= i < user.inputs.len()
            ==> rune_swap_tx_v(custodial, user).inputs[i] == #[trigger] user.inputs[i],
        forall|i: int| 0 <= i < custodial.len()
            ==> rune_swap_tx_v(custodial, user).inputs[user.inputs.len() + i]
                == custodial_input_v(#[trigger] custodial[i]),
        forall|i: int| 0 <= i < custodial.len()
            ==> rune_swap_tx_v(custodial, user).inputs[user.inputs.len() + i].previous_output
                == #[trigger] custodial[i],
        rune_swap_tx_v(custodial, user).outputs == user.outputs,
{
}

} // verus!
