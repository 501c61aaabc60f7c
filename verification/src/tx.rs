//! The plain-value model of a Bitcoin-style transaction.
//!
//! The assemblers work on these types only; the consensus wire codec that
//! turns them into bytes and back lives behind the trusted items in
//! [`crate::codec`]. A transaction here is the shape the assembler controls:
//! an ordered input list and an ordered output list, always carried with the
//! fixed version-2 tag and a zero lock time when encoded.

use vstd::prelude::*;

verus! {

/// The sequence value that disables relative-timelock semantics for an input.
pub const SEQUENCE_FINAL: u32 = 0xFFFF_FFFF;

/// A reference to a spendable prior output: 32-byte transaction id (in its
/// canonical internal byte order) and output index.
pub struct OutPoint {
    pub txid: Vec<u8>,
    pub vout: u32,
}

/// The mathematical value of an [`OutPoint`].
#[verifier::ext_equal]
pub ghost struct OutPointV {
    pub txid: Seq<u8>,
    pub vout: u32,
}

impl View for OutPoint {
    type V = OutPointV;

    open spec fn view(&self) -> OutPointV {
        OutPointV { txid: self.txid@, vout: self.vout }
    }
}

/// A well-formed outpoint carries exactly a 32-byte transaction id.
pub open spec fn outpoint_wf(o: OutPointV) -> bool {
    o.txid.len() == 32
}

/// One transaction input: the outpoint it spends, its unlocking script,
/// its sequence value, and its witness stack.
pub struct TxInput {
    pub previous_output: OutPoint,
    pub script_sig: Vec<u8>,
    pub sequence: u32,
    pub witness: Vec<Vec<u8>>,
}

/// The mathematical value of a [`TxInput`].
#[verifier::ext_equal]
pub ghost struct TxInputV {
    pub previous_output: OutPointV,
    pub script_sig: Seq<u8>,
    pub sequence: u32,
    pub witness: Seq<Seq<u8>>,
}

impl View for TxInput {
    type V = TxInputV;

    open spec fn view(&self) -> TxInputV {
        TxInputV {
            previous_output: self.previous_output@,
            script_sig: self.script_sig@,
            sequence: self.sequence,
            witness: self.witness.deep_view(),
        }
    }
}

/// One transaction output: value in satoshis and locking script.
pub struct TxOutput {
    pub value: u64,
    pub script_pubkey: Vec<u8>,
}

/// The mathematical value of a [`TxOutput`].
#[verifier::ext_equal]
pub ghost struct TxOutputV {
    pub value: u64,
    pub script_pubkey: Seq<u8>,
}

impl View for TxOutput {
    type V = TxOutputV;

    open spec fn view(&self) -> TxOutputV {
        TxOutputV { value: self.value, script_pubkey: self.script_pubkey@ }
    }
}

/// A transaction shape: ordered inputs and ordered outputs. Input order is
/// load-bearing, since signer designations name inputs by numeric index.
pub struct Transaction {
    pub inputs: Vec<TxInput>,
    pub outputs: Vec<TxOutput>,
}

/// The mathematical value of a [`Transaction`].
#[verifier::ext_equal]
pub ghost struct TransactionV {
    pub inputs: Seq<TxInputV>,
    pub outputs: Seq<TxOutputV>,
}

impl View for Transaction {
    type V = TransactionV;

    open spec fn view(&self) -> TransactionV {
        TransactionV {
            inputs: Seq::new(self.inputs@.len(), |i: int| self.inputs@[i]@),
            outputs: Seq::new(self.outputs@.len(), |i: int| self.outputs@[i]@),
        }
    }
}

/// A well-formed transaction has a well-formed outpoint in every input.
pub open spec fn tx_wf(t: TransactionV) -> bool {
    forall|i: int| 0 <= i < t.inputs.len() ==> outpoint_wf(#[trigger] t.inputs[i].previous_output)
}

/// The input the assembler synthesizes for a custodial UTXO: the given
/// outpoint, an empty unlocking-script placeholder, the relative-timelock
/// disabling sequence, and an empty witness.
pub open spec fn custodial_input_v(o: OutPointV) -> TxInputV {
    TxInputV {
        previous_output: o,
        script_sig: Seq::empty(),
        sequence: SEQUENCE_FINAL,
        witness: Seq::empty(),
    }
}

/// Builds the fresh custodial input for one outpoint.
pub fn custodial_input(outpoint: OutPoint) -> (r: TxInput)
    ensures
        r@ == custodial_input_v(outpoint@),
{
    let r = TxInput {
        previous_output: outpoint,
        script_sig: Vec::new(),
        sequence: SEQUENCE_FINAL,
        witness: Vec::new(),
    };
    proof {
        assert(r@ =~~= custodial_input_v(r.previous_output@));
    }
    r
}

/// Copies a byte vector.
pub fn clone_bytes(v: &Vec<u8>) -> (r: Vec<u8>)
    ensures
        r@ == v@,
{
    let mut r: Vec<u8> = Vec::new();
    let mut i: usize = 0;
    while i < v.len()
        invariant
            i <= v@.len(),
            r@ == v@.take(i as int),
        decreases v@.len() - i,
    {
        r.push(v[i]);
        proof {
            assert(r@ =~= v@.take(i + 1));
        }
        i = i + 1;
    }
    proof {
        assert(v@.take(v@.len() as int) =~= v@);
    }
    r
}

/// Copies a witness stack.
pub fn clone_witness(w: &Vec<Vec<u8>>) -> (r: Vec<Vec<u8>>)
    ensures
        r.deep_view() == w.deep_view(),
{
    let mut r: Vec<Vec<u8>> = Vec::new();
    let mut i: usize = 0;
    while i < w.len()
        invariant
            i <= w@.len(),
            r@.len() == i,
            forall|j: int| 0 <= j < i ==> #[trigger] r@[j]@ == w@[j]@,
        decreases w@.len() - i,
    {
        r.push(clone_bytes(&w[i]));
        i = i + 1;
    }
    proof {
        assert(r.deep_view() =~~= w.deep_view());
    }
    r
}

/// Copies one input verbatim.
pub fn clone_input(input: &TxInput) -> (r: TxInput)
    ensures
        r@ == input@,
{
    let r = TxInput {
        previous_output: OutPoint {
            txid: clone_bytes(&input.previous_output.txid),
            vout: input.previous_output.vout,
        },
        script_sig: clone_bytes(&input.script_sig),
        sequence: input.sequence,
        witness: clone_witness(&input.witness),
    };
    proof {
        assert(r@ =~~= input@);
    }
    r
}

/// Copies one output verbatim.
pub fn clone_output(output: &TxOutput) -> (r: TxOutput)
    ensures
        r@ == output@,
{
    TxOutput { value: output.value, script_pubkey: clone_bytes(&output.script_pubkey) }
}

} // verus!
