//! The order of work in submitting a transaction: fetch a blockhash, build
//! and sign, send, confirm. Confirming begins with a fresh blockhash.
//!
//! The work itself is the caller's. `submit_step` takes the outcome of the
//! action it asked for last and says what comes next. A call is one attempt:
//! nothing is tried twice.

use vstd::prelude::*;
use vstd::string::StringExecFns;
use solana_sdk::signature::Signature;
use solana_sdk::transaction::VersionedTransaction;

verus! {

#[verifier::external_type_specification]
#[verifier::external_body]
pub struct ExBlockhash(solana_sdk::hash::Hash);

#[verifier::external_type_specification]
#[verifier::external_body]
pub struct ExSignature(Signature);

#[verifier::external_type_specification]
#[verifier::external_body]
pub struct ExVersionedTransaction(VersionedTransaction);

/// The stages of a submission, in their order.
#[derive(Clone, Copy, Debug, PartialEq, Eq, Structural)]
pub enum Stage {
    FetchBlockhash,
    BuildAndSign,
    Send,
    /// Fetching a fresh blockhash, then waiting for the confirmation.
    Confirm,
}

impl Stage {
    /// The place of the stage in the order of work.
    pub open spec fn rank(self) -> int {
        match self {
            Stage::FetchBlockhash => 0,
            Stage::BuildAndSign => 1,
            Stage::Send => 2,
            Stage::Confirm => 3,
        }
    }

    /// The words that say at which stage a submission failed.
    pub open spec fn label_text(self) -> Seq<char> {
        match self {
            Stage::FetchBlockhash => "Error getting latest blockhash"@,
            Stage::BuildAndSign => "Error signing transaction"@,
            Stage::Send => "Error sending transaction"@,
            Stage::Confirm => "Error confirming transaction"@,
        }
    }

    /// The words that say at which stage a submission failed.
    pub fn label(self) -> (text: &'static str)
        ensures
            text@ == self.label_text(),
    {
        match self {
            Stage::FetchBlockhash => "Error getting latest blockhash",
            Stage::BuildAndSign => "Error signing transaction",
            Stage::Send => "Error sending transaction",
            Stage::Confirm => "Error confirming transaction",
        }
    }
}

/// A submission that failed: where, why, and the signature of the
/// transaction where it had been sent.
#[derive(Debug)]
pub struct SubmissionError {
    pub stage: Stage,
    pub reason: String,
    pub signature: Option<Signature>,
}

pub ghost struct SubmissionErrorView {
    pub stage: Stage,
    pub reason: Seq<char>,
    pub signature: Option<Signature>,
}

/// What a stage hands on when it succeeds.
pub enum StageOutput {
    Blockhash(solana_sdk::hash::Hash),
    Transaction(VersionedTransaction),
    Signature(Signature),
    Confirmed,
}

/// Which outcome a submission waits for.
pub enum SubmitState {
    /// The first blockhash.
    AwaitBlockhash,
    /// The signed transaction.
    AwaitTransaction,
    /// The signature under which the node took the transaction.
    AwaitSignature,
    /// The blockhash for the confirmation: the first outcome of the
    /// confirm stage.
    AwaitRecentBlockhash { signature: Signature },
    /// The confirmation.
    AwaitConfirmation { signature: Signature },
}

/// What the caller is to do.
pub enum SubmitAction {
    /// Ask the node for its latest blockhash.
    FetchBlockhash,
    /// Build the message with this blockhash and sign it.
    BuildAndSign { blockhash: solana_sdk::hash::Hash },
    /// Send the transaction to the node.
    Send { transaction: VersionedTransaction, skip_preflight: bool },
    /// Wait until the node confirms the transaction.
    Confirm { signature: Signature, blockhash: solana_sdk::hash::Hash },
}

/// Where a submission goes after an outcome.
pub enum SubmitStep {
    /// Do this, and come back with its outcome.
    Next(SubmitState, SubmitAction),
    /// The transaction is confirmed.
    Finished(Signature),
    /// The submission has failed.
    Failed(SubmissionError),
}

pub ghost enum SubmitStepView {
    Next(SubmitState, SubmitAction),
    Finished(Signature),
    Failed(SubmissionErrorView),
}

/// The reason given where an outcome is of another stage than the one that
/// was asked for.
pub open spec fn misplaced_outcome() -> Seq<char> {
    "outcome of another stage"@
}

impl SubmissionErrorView {
    /// The text of the failure: the label of its stage, the signature of
    /// the transaction where it had been sent, and the reason.
    pub open spec fn text(self, signature_text: Seq<char>) -> Seq<char> {
        self.stage.label_text() + self.signature_part(signature_text) + ": "@ + self.reason
    }

    /// The part of the text that names the transaction.
    pub open spec fn signature_part(self, signature_text: Seq<char>) -> Seq<char> {
        if self.signature is Some {
            " "@ + signature_text
        } else {
            Seq::empty()
        }
    }
}

impl SubmissionError {
    pub open spec fn view(&self) -> SubmissionErrorView {
        SubmissionErrorView { stage: self.stage, reason: self.reason@, signature: self.signature }
    }

    /// The text of the failure. `signature_text` is the signature as it is
    /// written for the operator; it is left out where nothing was sent.
    pub fn message(&self, signature_text: &str) -> (text: String)
        ensures
            text@ == self@.text(signature_text@),
    {
        let mut text = String::from_str(self.stage.label());
        if self.signature.is_some() {
            text.append(" ");
            text.append(signature_text);
        }
        text.append(": ");
        text.append(self.reason.as_str());
        proof {
            let label = self.stage.label_text();
            if self.signature is Some {
                assert(label + " "@ + signature_text@ + ": "@ + self.reason@ == label + (" "@
                    + signature_text@) + ": "@ + self.reason@);
            } else {
                assert(label + Seq::<char>::empty() == label);
            }
        }
        text
    }
}

impl SubmitState {
    /// The stage whose outcome the state waits for.
    pub open spec fn stage(self) -> Stage {
        match self {
            SubmitState::AwaitBlockhash => Stage::FetchBlockhash,
            SubmitState::AwaitTransaction => Stage::BuildAndSign,
            SubmitState::AwaitSignature => Stage::Send,
            SubmitState::AwaitRecentBlockhash { .. } => Stage::Confirm,
            SubmitState::AwaitConfirmation { .. } => Stage::Confirm,
        }
    }

    /// The signature of the transaction, once it has been sent.
    pub open spec fn signature(self) -> Option<Signature> {
        match self {
            SubmitState::AwaitRecentBlockhash { signature } => Some(signature),
            SubmitState::AwaitConfirmation { signature } => Some(signature),
            _ => None,
        }
    }

    /// The stage whose outcome the state waits for.
    pub fn current_stage(&self) -> (stage: Stage)
        ensures
            stage == self.stage(),
    {
        match self {
            SubmitState::AwaitBlockhash => Stage::FetchBlockhash,
            SubmitState::AwaitTransaction => Stage::BuildAndSign,
            SubmitState::AwaitSignature => Stage::Send,
            SubmitState::AwaitRecentBlockhash { .. } => Stage::Confirm,
            SubmitState::AwaitConfirmation { .. } => Stage::Confirm,
        }
    }

    /// The signature of the transaction, once it has been sent.
    pub fn sent_signature(&self) -> (signature: Option<Signature>)
        ensures
            signature == self.signature(),
    {
        match self {
            SubmitState::AwaitRecentBlockhash { signature } => Some(*signature),
            SubmitState::AwaitConfirmation { signature } => Some(*signature),
            _ => None,
        }
    }
}

impl SubmitAction {
    /// The stage that the action belongs to.
    pub open spec fn stage(self) -> Stage {
        match self {
            SubmitAction::FetchBlockhash => Stage::FetchBlockhash,
            SubmitAction::BuildAndSign { .. } => Stage::BuildAndSign,
            SubmitAction::Send { .. } => Stage::Send,
            SubmitAction::Confirm { .. } => Stage::Confirm,
        }
    }
}

impl SubmitStep {
    pub open spec fn view(&self) -> SubmitStepView {
        match *self {
            SubmitStep::Next(state, action) => SubmitStepView::Next(state, action),
            SubmitStep::Finished(signature) => SubmitStepView::Finished(signature),
            SubmitStep::Failed(e) => SubmitStepView::Failed(e@),
        }
    }
}

/// The failure of a submission in a state.
pub open spec fn failure(state: SubmitState, reason: Seq<char>) -> SubmitStepView {
    SubmitStepView::Failed(
        SubmissionErrorView { stage: state.stage(), reason, signature: state.signature() },
    )
}

/// Where a submission goes from a state on an outcome. An error ends it
/// with the stage of the state; a success leads to the next stage, and from
/// the last one to the end.
pub open spec fn next_step(
    skip_preflight: bool,
    state: SubmitState,
    outcome: Result<StageOutput, Seq<char>>,
) -> SubmitStepView {
    match outcome {
        Err(reason) => failure(state, reason),
        Ok(output) => match (state, output) {
            (SubmitState::AwaitBlockhash, StageOutput::Blockhash(blockhash)) => {
                SubmitStepView::Next(
                    SubmitState::AwaitTransaction,
                    SubmitAction::BuildAndSign { blockhash },
                )
            },
            (SubmitState::AwaitTransaction, StageOutput::Transaction(transaction)) => {
                SubmitStepView::Next(
                    SubmitState::AwaitSignature,
                    SubmitAction::Send { transaction, skip_preflight },
                )
            },
            (SubmitState::AwaitSignature, StageOutput::Signature(signature)) => {
                SubmitStepView::Next(
                    SubmitState::AwaitRecentBlockhash { signature },
                    SubmitAction::FetchBlockhash,
                )
            },
            (SubmitState::AwaitRecentBlockhash { signature }, StageOutput::Blockhash(blockhash)) => {
                SubmitStepView::Next(
                    SubmitState::AwaitConfirmation { signature },
                    SubmitAction::Confirm { signature, blockhash },
                )
            },
            (SubmitState::AwaitConfirmation { signature }, StageOutput::Confirmed) => {
                SubmitStepView::Finished(signature)
            },
            _ => failure(state, misplaced_outcome()),
        },
    }
}

/// The state and the action that a submission starts with.
pub fn start_submission() -> (start: (SubmitState, SubmitAction))
    ensures
        start == (SubmitState::AwaitBlockhash, SubmitAction::FetchBlockhash),
{
    (SubmitState::AwaitBlockhash, SubmitAction::FetchBlockhash)
}

fn fail(state: SubmitState, reason: String) -> (step: SubmitStep)
    ensures
        step@ == failure(state, reason@),
{
    let stage = state.current_stage();
    let signature = state.sent_signature();
    SubmitStep::Failed(SubmissionError { stage, reason, signature })
}

/// Takes a submission one outcome further. `skip_preflight` says whether the
/// node is to skip its simulation of the transaction when it is sent.
pub fn submit_step(
    skip_preflight: bool,
    state: SubmitState,
    outcome: Result<StageOutput, String>,
) -> (step: SubmitStep)
    ensures
        step@ == next_step(
            skip_preflight,
            state,
            match outcome {
                Ok(output) => Ok(output),
                Err(reason) => Err(reason@),
            },
        ),
{
    let output = match outcome {
        Ok(output) => output,
        Err(reason) => {
            return fail(state, reason);
        },
    };
    match (state, output) {
        (SubmitState::AwaitBlockhash, StageOutput::Blockhash(blockhash)) => SubmitStep::Next(
            SubmitState::AwaitTransaction,
            SubmitAction::BuildAndSign { blockhash },
        ),
        (SubmitState::AwaitTransaction, StageOutput::Transaction(transaction)) => SubmitStep::Next(
            SubmitState::AwaitSignature,
            SubmitAction::Send { transaction, skip_preflight },
        ),
        (SubmitState::AwaitSignature, StageOutput::Signature(signature)) => SubmitStep::Next(
            SubmitState::AwaitRecentBlockhash { signature },
            SubmitAction::FetchBlockhash,
        ),
        (
            SubmitState::AwaitRecentBlockhash { signature },
            StageOutput::Blockhash(blockhash),
        ) => SubmitStep::Next(
            SubmitState::AwaitConfirmation { signature },
            SubmitAction::Confirm { signature, blockhash },
        ),
        (SubmitState::AwaitConfirmation { signature }, StageOutput::Confirmed) => {
            SubmitStep::Finished(signature)
        },
        (state, _) => fail(state, "outcome of another stage".to_string()),
    }
}

/// A failure at any stage ends the submission with that stage's label and
/// the reason as it came: no later stage is entered.
pub proof fn lemma_failure_ends_submission(
    skip_preflight: bool,
    state: SubmitState,
    reason: Seq<char>,
)
    ensures
        next_step(skip_preflight, state, Err(reason)) == SubmitStepView::Failed(
            SubmissionErrorView { stage: state.stage(), reason, signature: state.signature() },
        ),
{
}

/// Every step that goes on took a success, and enters the stage right
/// after the one whose outcome it took; only within the confirm stage,
/// from the fresh blockhash to the confirmation, the stage stays. A
/// submission finishes on the confirmation alone.
pub proof fn lemma_stages_follow_in_order(
    skip_preflight: bool,
    state: SubmitState,
    outcome: Result<StageOutput, Seq<char>>,
)
    ensures
        next_step(skip_preflight, state, outcome) matches SubmitStepView::Next(next, action) ==> {
            &&& outcome is Ok
            &&& next.stage().rank() == if state is AwaitRecentBlockhash {
                state.stage().rank()
            } else {
                state.stage().rank() + 1
            }
            &&& action.stage() == next.stage() || (next is AwaitRecentBlockhash && action
                == SubmitAction::FetchBlockhash)
        },
        next_step(skip_preflight, state, outcome) is Finished ==> state is AwaitConfirmation
            && outcome == Ok::<StageOutput, Seq<char>>(StageOutput::Confirmed),
{
}

/// A failure after the transaction was sent is a failure of the confirm
/// stage, whether the fresh blockhash or the confirmation failed, and its
/// text holds the signature of the transaction.
pub proof fn lemma_failure_after_send_names_transaction(
    skip_preflight: bool,
    state: SubmitState,
    reason: Seq<char>,
    signature_text: Seq<char>,
)
    requires
        state is AwaitRecentBlockhash || state is AwaitConfirmation,
    ensures
        next_step(skip_preflight, state, Err(reason)) matches SubmitStepView::Failed(e) && {
            &&& e.stage == Stage::Confirm
            &&& e.signature == state.signature()
            &&& e.signature is Some
            &&& exists|at: int|
                0 <= at && at + signature_text.len() <= e.text(signature_text).len()
                    && #[trigger] e.text(signature_text).subrange(
                    at,
                    at + signature_text.len(),
                ) == signature_text
        },
{
    let e = SubmissionErrorView { stage: state.stage(), reason, signature: state.signature() };
    let text = e.text(signature_text);
    let at = (e.stage.label_text() + " "@).len() as int;
    assert(text.subrange(at, at + signature_text.len()) == signature_text);
}

/// Before the transaction is sent a failure names no transaction.
pub proof fn lemma_failure_before_send_names_none(
    skip_preflight: bool,
    state: SubmitState,
    reason: Seq<char>,
    signature_text: Seq<char>,
)
    requires
        !(state is AwaitRecentBlockhash || state is AwaitConfirmation),
    ensures
        next_step(skip_preflight, state, Err(reason)) matches SubmitStepView::Failed(e) && {
            &&& e.signature is None
            &&& e.stage != Stage::Confirm
            &&& e.text(signature_text) == e.stage.label_text() + ": "@ + reason
        },
{
    let e = SubmissionErrorView { stage: state.stage(), reason, signature: state.signature() };
    assert(e.stage.label_text() + Seq::<char>::empty() == e.stage.label_text());
}

/// A transaction is sent only after it was built and signed: where signing
/// fails, the submission fails at that stage and nothing is sent.
pub proof fn lemma_send_needs_signed_transaction(
    skip_preflight: bool,
    state: SubmitState,
    outcome: Result<StageOutput, Seq<char>>,
)
    ensures
        next_step(skip_preflight, state, outcome) matches SubmitStepView::Next(
            _,
            SubmitAction::Send { transaction, skip_preflight: skip },
        ) ==> state == SubmitState::AwaitTransaction && outcome == Ok::<
            StageOutput,
            Seq<char>,
        >(StageOutput::Transaction(transaction)) && skip == skip_preflight,
        state == SubmitState::AwaitTransaction && outcome is Err ==> (next_step(
            skip_preflight,
            state,
            outcome,
        ) matches SubmitStepView::Failed(e) && e.stage == Stage::BuildAndSign),
{
}

} // verus!
