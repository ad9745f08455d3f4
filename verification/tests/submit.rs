use arborist::submit::{
    start_submission, submit_step, Stage, StageOutput, SubmitAction, SubmitState, SubmitStep,
};
use solana_sdk::instruction::{AccountMeta, Instruction};
use solana_sdk::message::{Message, VersionedMessage};
use solana_sdk::pubkey::Pubkey;
use solana_sdk::signature::{Keypair, Signature};
use solana_sdk::signer::Signer;
use solana_sdk::transaction::VersionedTransaction;

fn sign(signers: &[&Keypair], payer: &Keypair, other: &Keypair, blockhash: &solana_sdk::hash::Hash) -> Result<StageOutput, String> {
    let instruction = Instruction {
        program_id: Pubkey::new_from_array([9u8; 32]),
        accounts: vec![
            AccountMeta::new_readonly(payer.pubkey(), true),
            AccountMeta::new(other.pubkey(), true),
        ],
        data: vec![1, 2, 3],
    };
    let message = Message::new_with_blockhash(&[instruction], Some(&payer.pubkey()), blockhash);
    VersionedTransaction::try_new(VersionedMessage::Legacy(message), &signers.to_vec())
        .map(StageOutput::Transaction)
        .map_err(|e| e.to_string())
}

#[test]
fn submission_runs_through_its_stages() {
    let payer = Keypair::new();
    let other = Keypair::new();
    let first_hash = solana_sdk::hash::Hash::new_from_array([1u8; 32]);
    let second_hash = solana_sdk::hash::Hash::new_from_array([2u8; 32]);
    let (state, action) = start_submission();
    assert!(matches!(state, SubmitState::AwaitBlockhash));
    assert!(matches!(action, SubmitAction::FetchBlockhash));

    let (state, blockhash) = match submit_step(true, state, Ok(StageOutput::Blockhash(first_hash))) {
        SubmitStep::Next(state, SubmitAction::BuildAndSign { blockhash }) => (state, blockhash),
        _ => panic!("no signing"),
    };
    assert_eq!(blockhash, first_hash);
    assert_eq!(state.current_stage(), Stage::BuildAndSign);

    let signed = sign(&[&payer, &other], &payer, &other, &blockhash);
    let (state, transaction) = match submit_step(true, state, signed) {
        SubmitStep::Next(state, SubmitAction::Send { transaction, skip_preflight }) => {
            assert!(skip_preflight);
            (state, transaction)
        }
        _ => panic!("no sending"),
    };
    assert_eq!(state.current_stage(), Stage::Send);
    assert!(state.sent_signature().is_none());
    let signature = transaction.signatures[0];

    let state = match submit_step(true, state, Ok(StageOutput::Signature(signature))) {
        SubmitStep::Next(state, SubmitAction::FetchBlockhash) => state,
        _ => panic!("no second blockhash"),
    };
    assert_eq!(state.current_stage(), Stage::Confirm);
    assert_eq!(state.sent_signature(), Some(signature));

    let state = match submit_step(true, state, Ok(StageOutput::Blockhash(second_hash))) {
        SubmitStep::Next(state, SubmitAction::Confirm { signature: s, blockhash }) => {
            assert_eq!(s, signature);
            assert_eq!(blockhash, second_hash);
            state
        }
        _ => panic!("no confirmation"),
    };
    assert_eq!(state.current_stage(), Stage::Confirm);

    match submit_step(true, state, Ok(StageOutput::Confirmed)) {
        SubmitStep::Finished(s) => assert_eq!(s, signature),
        _ => panic!("not finished"),
    }
}

#[test]
fn skip_preflight_is_handed_on() {
    let payer = Keypair::new();
    let other = Keypair::new();
    let signed = sign(&[&payer, &other], &payer, &other, &solana_sdk::hash::Hash::default());
    match submit_step(false, SubmitState::AwaitTransaction, signed) {
        SubmitStep::Next(_, SubmitAction::Send { skip_preflight, .. }) => assert!(!skip_preflight),
        _ => panic!("no sending"),
    }
}

#[test]
fn missing_signer_fails_at_signing() {
    let payer = Keypair::new();
    let other = Keypair::new();
    let signed = sign(&[&payer], &payer, &other, &solana_sdk::hash::Hash::default());
    assert!(signed.is_err());
    match submit_step(true, SubmitState::AwaitTransaction, signed) {
        SubmitStep::Failed(e) => {
            assert_eq!(e.stage, Stage::BuildAndSign);
            assert_eq!(e.stage.label(), "Error signing transaction");
            assert_eq!(e.reason, "not enough signers");
            assert!(e.signature.is_none());
        }
        _ => panic!("sent without a signer"),
    }
}

#[test]
fn wrong_signer_fails_at_signing() {
    let payer = Keypair::new();
    let other = Keypair::new();
    let stranger = Keypair::new();
    let signed = sign(&[&payer, &stranger], &payer, &other, &solana_sdk::hash::Hash::default());
    match submit_step(true, SubmitState::AwaitTransaction, signed) {
        SubmitStep::Failed(e) => assert_eq!(e.stage, Stage::BuildAndSign),
        _ => panic!("sent with a wrong signer"),
    }
}

#[test]
fn failure_is_labelled_by_its_stage() {
    let signature = Signature::new(&[5u8; 64]);
    let cases = [
        (SubmitState::AwaitBlockhash, Stage::FetchBlockhash, "Error getting latest blockhash", None),
        (SubmitState::AwaitTransaction, Stage::BuildAndSign, "Error signing transaction", None),
        (SubmitState::AwaitSignature, Stage::Send, "Error sending transaction", None),
        (
            SubmitState::AwaitRecentBlockhash { signature },
            Stage::Confirm,
            "Error confirming transaction",
            Some(signature),
        ),
        (
            SubmitState::AwaitConfirmation { signature },
            Stage::Confirm,
            "Error confirming transaction",
            Some(signature),
        ),
    ];
    for (state, stage, label, sent) in cases {
        match submit_step(false, state, Err("node said no".to_string())) {
            SubmitStep::Failed(e) => {
                assert_eq!(e.stage, stage);
                assert_eq!(e.stage.label(), label);
                assert_eq!(e.reason, "node said no");
                assert_eq!(e.signature, sent);
            }
            _ => panic!("went on after a failure"),
        }
    }
}

#[test]
fn outcome_of_another_stage_fails() {
    match submit_step(false, SubmitState::AwaitBlockhash, Ok(StageOutput::Confirmed)) {
        SubmitStep::Failed(e) => {
            assert_eq!(e.stage, Stage::FetchBlockhash);
            assert_eq!(e.reason, "outcome of another stage");
        }
        _ => panic!("went on"),
    }
    let signature = Signature::new(&[5u8; 64]);
    match submit_step(
        false,
        SubmitState::AwaitConfirmation { signature },
        Ok(StageOutput::Signature(signature)),
    ) {
        SubmitStep::Failed(e) => {
            assert_eq!(e.stage, Stage::Confirm);
            assert_eq!(e.signature, Some(signature));
        }
        _ => panic!("went on"),
    }
}

#[test]
fn failure_after_send_shows_the_signature() {
    let signature = Signature::new(&[5u8; 64]);
    let text = signature.to_string();
    for state in [
        SubmitState::AwaitRecentBlockhash { signature },
        SubmitState::AwaitConfirmation { signature },
    ] {
        match submit_step(false, state, Err("node unreachable".to_string())) {
            SubmitStep::Failed(e) => {
                assert_eq!(e.stage, Stage::Confirm);
                assert_eq!(e.signature, Some(signature));
                assert_eq!(
                    e.message(&text),
                    format!("Error confirming transaction {}: node unreachable", signature)
                );
            }
            _ => panic!("went on after a failure"),
        }
    }
}

#[test]
fn failure_before_send_shows_no_signature() {
    let cases = [
        (SubmitState::AwaitBlockhash, "Error getting latest blockhash: timed out"),
        (SubmitState::AwaitTransaction, "Error signing transaction: timed out"),
        (SubmitState::AwaitSignature, "Error sending transaction: timed out"),
    ];
    for (state, text) in cases {
        match submit_step(false, state, Err("timed out".to_string())) {
            SubmitStep::Failed(e) => {
                assert!(e.signature.is_none());
                assert_eq!(e.message("never shown"), text);
            }
            _ => panic!("went on after a failure"),
        }
    }
}

#[test]
fn failed_second_blockhash_ends_at_the_confirm_stage() {
    let signature = Signature::new(&[8u8; 64]);
    let state = match submit_step(false, SubmitState::AwaitSignature, Ok(StageOutput::Signature(signature))) {
        SubmitStep::Next(state, SubmitAction::FetchBlockhash) => state,
        _ => panic!("no second blockhash"),
    };
    match submit_step(false, state, Err("no blockhash".to_string())) {
        SubmitStep::Failed(e) => {
            assert_eq!(e.stage, Stage::Confirm);
            assert_eq!(e.stage.label(), "Error confirming transaction");
            assert!(e.message(&signature.to_string()).contains(&signature.to_string()));
        }
        _ => panic!("polled without a blockhash"),
    }
}
