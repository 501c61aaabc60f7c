use std::str::FromStr;

use bitcoin::absolute::LockTime;
use bitcoin::transaction::Version;
use bitcoin::{Amount, OutPoint, ScriptBuf, Sequence, Transaction, TxIn, TxOut, Txid, Witness};

use chimera_swap::assemble::{
    swap_inscription_rune, swap_rune_inscription, AuthorityKey, SwapInscriptionRuneParams,
    SwapRuneInscriptionParams,
};
use chimera_swap::dispatch::{
    parse_opcode, process_swap, validate_account_count, SwapInstruction, SwapOp,
    OPCODE_SWAP_INSCRIPTION_RUNE, OPCODE_SWAP_RUNE_INSCRIPTION,
};
use chimera_swap::errors::SwapError;

const TXID_A: &str = "aaaaaaaaaaaaaaaaaaaaaaaaaaaaaaaaaaaaaaaaaaaaaaaaaaaaaaaaaaaaaaaa";
const TXID_B: &str = "bbbbbbbbbbbbbbbbbbbbbbbbbbbbbbbbbbbbbbbbbbbbbbbbbbbbbbbbbbbbbbbb";
const TXID_C: &str = "cccccccccccccccccccccccccccccccccccccccccccccccccccccccccccccccc";
const TXID_D: &str = "1234567890abcdef1234567890abcdef1234567890abcdef1234567890abcdef";

fn authority() -> AuthorityKey {
    AuthorityKey { bytes: [7u8; 32] }
}

fn user_input(vout: u32, seq: u32, witness_item: u8) -> TxIn {
    TxIn {
        previous_output: OutPoint {
            txid: Txid::from_str(TXID_D).unwrap(),
            vout,
        },
        script_sig: ScriptBuf::from_bytes(vec![0x51, witness_item]),
        sequence: Sequence(seq),
        witness: Witness::from(vec![vec![witness_item, 0xee]]),
    }
}

fn user_output(value: u64, tag: u8) -> TxOut {
    TxOut {
        value: Amount::from_sat(value),
        script_pubkey: ScriptBuf::from_bytes(vec![0x6a, tag]),
    }
}

fn user_tx(inputs: Vec<TxIn>, outputs: Vec<TxOut>) -> Transaction {
    Transaction {
        version: Version::TWO,
        lock_time: LockTime::ZERO,
        input: inputs,
        output: outputs,
    }
}

fn custodial_input(txid: &str, vout: u32) -> TxIn {
    TxIn {
        previous_output: OutPoint {
            txid: Txid::from_str(txid).unwrap(),
            vout,
        },
        script_sig: ScriptBuf::new(),
        sequence: Sequence::MAX,
        witness: Witness::new(),
    }
}

#[test]
fn inscription_swap_builds_combined_transaction() {
    let user = user_tx(
        vec![user_input(3, 0xFFFF_FFFE, 0xab), user_input(9, 0x0000_0001, 0xcd)],
        vec![user_output(5_000, 1)],
    );
    let params = SwapInscriptionRuneParams {
        inscription_txid: String::from(TXID_A),
        inscription_vout: 0,
        user_swap_psbt: bitcoin::consensus::serialize(&user),
    };
    let req = swap_inscription_rune(&params, &authority()).unwrap();

    let combined: Transaction = bitcoin::consensus::deserialize(&req.tx_bytes).unwrap();
    assert_eq!(combined.version, Version::TWO);
    assert_eq!(combined.lock_time, LockTime::ZERO);
    assert_eq!(combined.input.len(), 3);
    assert_eq!(combined.input[0], custodial_input(TXID_A, 0));
    assert_eq!(combined.input[1], user.input[0]);
    assert_eq!(combined.input[2], user.input[1]);
    assert_eq!(combined.output, user.output);

    let expected = user_tx(
        vec![custodial_input(TXID_A, 0), user.input[0].clone(), user.input[1].clone()],
        user.output.clone(),
    );
    assert_eq!(req.tx_bytes, bitcoin::consensus::serialize(&expected));

    assert_eq!(req.designations.len(), 1);
    assert_eq!(req.designations[0].input_index, 0);
    assert_eq!(req.designations[0].signer.bytes, [7u8; 32]);
}

#[test]
fn rune_swap_builds_combined_transaction() {
    let user = user_tx(
        vec![user_input(1, 0xFFFF_FFFD, 0x11)],
        vec![user_output(1_000, 2), user_output(2_000, 3)],
    );
    let params = SwapRuneInscriptionParams {
        rune_txids: vec![String::from(TXID_B), String::from(TXID_C)],
        rune_vouts: vec![1, 0],
        user_swap_psbt: bitcoin::consensus::serialize(&user),
    };
    let req = swap_rune_inscription(&params, &authority()).unwrap();

    let combined: Transaction = bitcoin::consensus::deserialize(&req.tx_bytes).unwrap();
    assert_eq!(combined.input.len(), 3);
    assert_eq!(combined.input[0], user.input[0]);
    assert_eq!(combined.input[1], custodial_input(TXID_B, 1));
    assert_eq!(combined.input[2], custodial_input(TXID_C, 0));
    assert_eq!(combined.output, user.output);

    let expected = user_tx(
        vec![user.input[0].clone(), custodial_input(TXID_B, 1), custodial_input(TXID_C, 0)],
        user.output.clone(),
    );
    assert_eq!(req.tx_bytes, bitcoin::consensus::serialize(&expected));

    assert_eq!(req.designations.len(), 2);
    assert_eq!(req.designations[0].input_index, 1);
    assert_eq!(req.designations[1].input_index, 2);
    assert_eq!(req.designations[0].signer.bytes, [7u8; 32]);
    assert_eq!(req.designations[1].signer.bytes, [7u8; 32]);
}

#[test]
fn rune_swap_length_mismatch_fails() {
    let user = user_tx(vec![user_input(0, 0xFFFF_FFFF, 0x22)], vec![user_output(1, 4)]);
    let params = SwapRuneInscriptionParams {
        rune_txids: vec![String::from(TXID_B), String::from(TXID_C)],
        rune_vouts: vec![1],
        user_swap_psbt: bitcoin::consensus::serialize(&user),
    };
    let r = swap_rune_inscription(&params, &authority());
    assert!(matches!(r, Err(SwapError::ParameterMismatch)));

    let params = SwapRuneInscriptionParams {
        rune_txids: vec![String::from(TXID_B)],
        rune_vouts: vec![1, 0, 2],
        user_swap_psbt: bitcoin::consensus::serialize(&user),
    };
    let r = swap_rune_inscription(&params, &authority());
    assert!(matches!(r, Err(SwapError::ParameterMismatch)));
}

#[test]
fn undecodable_partial_transaction_fails_both_assemblers() {
    let garbage = vec![0xde, 0xad, 0xbe, 0xef];
    let p1 = SwapInscriptionRuneParams {
        inscription_txid: String::from(TXID_A),
        inscription_vout: 0,
        user_swap_psbt: garbage.clone(),
    };
    assert!(matches!(
        swap_inscription_rune(&p1, &authority()),
        Err(SwapError::DecodeError)
    ));

    let p2 = SwapRuneInscriptionParams {
        rune_txids: vec![String::from(TXID_B)],
        rune_vouts: vec![0],
        user_swap_psbt: garbage,
    };
    assert!(matches!(
        swap_rune_inscription(&p2, &authority()),
        Err(SwapError::DecodeError)
    ));
}

#[test]
fn trailing_bytes_fail_decode() {
    let user = user_tx(vec![user_input(0, 0xFFFF_FFFF, 0x33)], vec![user_output(9, 5)]);
    let mut bytes = bitcoin::consensus::serialize(&user);
    bytes.push(0x00);
    let params = SwapInscriptionRuneParams {
        inscription_txid: String::from(TXID_A),
        inscription_vout: 2,
        user_swap_psbt: bytes,
    };
    assert!(matches!(
        swap_inscription_rune(&params, &authority()),
        Err(SwapError::DecodeError)
    ));
}

#[test]
fn malformed_inscription_txid_fails() {
    let user = user_tx(vec![user_input(0, 0xFFFF_FFFF, 0x44)], vec![user_output(9, 6)]);
    let params = SwapInscriptionRuneParams {
        inscription_txid: String::from("not a txid"),
        inscription_vout: 0,
        user_swap_psbt: bitcoin::consensus::serialize(&user),
    };
    assert!(matches!(
        swap_inscription_rune(&params, &authority()),
        Err(SwapError::InvalidReference(0))
    ));
}

#[test]
fn malformed_rune_txid_fails_with_its_position() {
    let user = user_tx(vec![user_input(0, 0xFFFF_FFFF, 0x55)], vec![user_output(9, 7)]);
    let params = SwapRuneInscriptionParams {
        rune_txids: vec![String::from(TXID_B), String::from("short"), String::from(TXID_C)],
        rune_vouts: vec![0, 1, 2],
        user_swap_psbt: bitcoin::consensus::serialize(&user),
    };
    assert!(matches!(
        swap_rune_inscription(&params, &authority()),
        Err(SwapError::InvalidReference(1))
    ));
}

#[test]
fn rune_swap_with_zero_pairs_designates_nothing() {
    let user = user_tx(vec![user_input(4, 0xFFFF_FFFF, 0x66)], vec![user_output(42, 8)]);
    let params = SwapRuneInscriptionParams {
        rune_txids: vec![],
        rune_vouts: vec![],
        user_swap_psbt: bitcoin::consensus::serialize(&user),
    };
    let req = swap_rune_inscription(&params, &authority()).unwrap();
    assert!(req.designations.is_empty());
    let combined: Transaction = bitcoin::consensus::deserialize(&req.tx_bytes).unwrap();
    assert_eq!(combined.input, user.input);
    assert_eq!(combined.output, user.output);
}

#[test]
fn inscription_swap_with_no_user_outputs() {
    let user = user_tx(vec![user_input(0, 0xFFFF_FFFF, 0x77)], vec![]);
    let params = SwapInscriptionRuneParams {
        inscription_txid: String::from(TXID_A),
        inscription_vout: 255,
        user_swap_psbt: bitcoin::consensus::serialize(&user),
    };
    let req = swap_inscription_rune(&params, &authority()).unwrap();
    let combined: Transaction = bitcoin::consensus::deserialize(&req.tx_bytes).unwrap();
    assert_eq!(combined.input.len(), 2);
    assert_eq!(combined.input[0], custodial_input(TXID_A, 255));
    assert!(combined.output.is_empty());
}

#[test]
fn opcodes_select_the_defined_assemblers() {
    assert_eq!(parse_opcode(OPCODE_SWAP_INSCRIPTION_RUNE), Ok(SwapOp::InscriptionForRunes));
    assert_eq!(parse_opcode(OPCODE_SWAP_RUNE_INSCRIPTION), Ok(SwapOp::RunesForInscription));
    assert_eq!(parse_opcode(2), Err(SwapError::UnknownOperation));
    assert_eq!(parse_opcode(255), Err(SwapError::UnknownOperation));
}

#[test]
fn account_set_must_hold_exactly_one() {
    assert!(matches!(validate_account_count(1), Ok(())));
    assert!(matches!(validate_account_count(0), Err(SwapError::BadAccountSet)));
    assert!(matches!(validate_account_count(2), Err(SwapError::BadAccountSet)));
}

#[test]
fn process_swap_dispatches_to_the_selected_assembler() {
    let user = user_tx(vec![user_input(6, 0xFFFF_FFFF, 0x88)], vec![user_output(10, 9)]);
    let psbt = bitcoin::consensus::serialize(&user);

    let p1 = SwapInscriptionRuneParams {
        inscription_txid: String::from(TXID_A),
        inscription_vout: 1,
        user_swap_psbt: psbt.clone(),
    };
    let direct = swap_inscription_rune(&p1, &authority()).unwrap();
    let p1 = SwapInstruction::InscriptionForRunes(SwapInscriptionRuneParams {
        inscription_txid: String::from(TXID_A),
        inscription_vout: 1,
        user_swap_psbt: psbt.clone(),
    });
    let routed = process_swap(&p1, &authority()).unwrap();
    assert_eq!(routed.tx_bytes, direct.tx_bytes);
    assert_eq!(routed.designations.len(), 1);
    assert_eq!(routed.designations[0].input_index, 0);

    let p2 = SwapInstruction::RunesForInscription(SwapRuneInscriptionParams {
        rune_txids: vec![String::from(TXID_C)],
        rune_vouts: vec![3],
        user_swap_psbt: psbt,
    });
    let routed = process_swap(&p2, &authority()).unwrap();
    assert_eq!(routed.designations.len(), 1);
    assert_eq!(routed.designations[0].input_index, 1);
    let combined: Transaction = bitcoin::consensus::deserialize(&routed.tx_bytes).unwrap();
    assert_eq!(combined.input[1], custodial_input(TXID_C, 3));
}
