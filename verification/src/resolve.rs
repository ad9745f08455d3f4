//! From a signer source to a key pair: which way each kind of source goes,
//! and what is made of the bytes that were read.

use vstd::prelude::*;
use solana_sdk::derivation_path::DerivationPath;
use solana_sdk::signer::keypair::Keypair;
use crate::keys::{encoded_keypair, keypair_from_json};
use crate::source::{SignerSource, SignerSourceKind, SignerSourceView, SignerSourceKindView};
use vstd::string::StringExecFns;

verus! {

/// Why a source gave no key pair.
#[derive(Debug)]
pub enum ResolutionError {
    /// The key pair file could not be read or does not hold a key pair.
    KeypairFile { path: String, reason: String },
    /// Standard input could not be read or does not hold a key pair.
    KeypairStream { reason: String },
    /// A source of this kind holds no private key.
    Unsupported { kind: String },
}

pub ghost enum ResolutionErrorView {
    KeypairFile { path: Seq<char>, reason: Seq<char> },
    KeypairStream { reason: Seq<char> },
    Unsupported { kind: Seq<char> },
}

/// What is to be done to get the key pair of a source.
pub enum KeypairPlan {
    /// Ask for a seed phrase and recover the key pair from it.
    Recover { derivation_path: Option<DerivationPath>, legacy: bool },
    /// Read the key pair file at the path.
    ReadFile(String),
    /// Read a key pair from standard input.
    ReadStdin,
    /// Nothing can be done.
    Refuse(ResolutionError),
}

pub ghost enum KeypairPlanView {
    Recover { derivation_path: Option<DerivationPath>, legacy: bool },
    ReadFile(Seq<char>),
    ReadStdin,
    Refuse(ResolutionErrorView),
}

impl ResolutionError {
    pub open spec fn view(&self) -> ResolutionErrorView {
        match *self {
            ResolutionError::KeypairFile { path, reason } => ResolutionErrorView::KeypairFile {
                path: path@,
                reason: reason@,
            },
            ResolutionError::KeypairStream { reason } => ResolutionErrorView::KeypairStream {
                reason: reason@,
            },
            ResolutionError::Unsupported { kind } => ResolutionErrorView::Unsupported {
                kind: kind@,
            },
        }
    }

    /// The text of the error.
    pub fn message(&self) -> (text: String)
        ensures
            text@ == self@.text(),
    {
        match self {
            ResolutionError::KeypairFile { path, reason } => {
                let mut text = String::from_str("could not read keypair file \"");
                text.append(path.as_str());
                text.append("\". Run \"solana-keygen new\" to create a keypair file: ");
                text.append(reason.as_str());
                text
            },
            ResolutionError::KeypairStream { reason } => reason.clone(),
            ResolutionError::Unsupported { kind } => {
                let mut text = String::from_str("signer of type `");
                text.append(kind.as_str());
                text.append("` does not support Keypair output");
                text
            },
        }
    }
}

impl ResolutionErrorView {
    /// The text of the error.
    pub open spec fn text(self) -> Seq<char> {
        match self {
            ResolutionErrorView::KeypairFile { path, reason } => {
                "could not read keypair file \""@ + path
                    + "\". Run \"solana-keygen new\" to create a keypair file: "@ + reason
            },
            ResolutionErrorView::KeypairStream { reason } => reason,
            ResolutionErrorView::Unsupported { kind } => {
                "signer of type `"@ + kind + "` does not support Keypair output"@
            },
        }
    }
}

impl KeypairPlan {
    pub open spec fn view(&self) -> KeypairPlanView {
        match *self {
            KeypairPlan::Recover { derivation_path, legacy } => KeypairPlanView::Recover {
                derivation_path,
                legacy,
            },
            KeypairPlan::ReadFile(path) => KeypairPlanView::ReadFile(path@),
            KeypairPlan::ReadStdin => KeypairPlanView::ReadStdin,
            KeypairPlan::Refuse(e) => KeypairPlanView::Refuse(e@),
        }
    }
}

/// The way to the key pair of each kind of source. A hardware wallet and a
/// bare public key have none.
pub open spec fn plan_of(source: SignerSourceView) -> KeypairPlanView {
    match source.kind {
        SignerSourceKindView::Prompt => KeypairPlanView::Recover {
            derivation_path: source.derivation_path,
            legacy: source.legacy,
        },
        SignerSourceKindView::Filepath(path) => KeypairPlanView::ReadFile(path),
        SignerSourceKindView::Stdin => KeypairPlanView::ReadStdin,
        SignerSourceKindView::Usb(_) => KeypairPlanView::Refuse(
            ResolutionErrorView::Unsupported { kind: "usb"@ },
        ),
        SignerSourceKindView::Pubkey(_) => KeypairPlanView::Refuse(
            ResolutionErrorView::Unsupported { kind: "pubkey"@ },
        ),
    }
}

/// Says how the key pair of a source is to be had.
pub fn keypair_plan(source: SignerSource) -> (plan: KeypairPlan)
    ensures
        plan@ == plan_of(source@),
{
    let SignerSource { kind, derivation_path, legacy } = source;
    match kind {
        SignerSourceKind::Prompt => KeypairPlan::Recover { derivation_path, legacy },
        SignerSourceKind::Filepath(path) => KeypairPlan::ReadFile(path),
        SignerSourceKind::Stdin => KeypairPlan::ReadStdin,
        other => KeypairPlan::Refuse(
            ResolutionError::Unsupported { kind: String::from_str(other.as_ref()) },
        ),
    }
}

/// The key pair that the contents of a key pair file give, or the error that
/// names the file: `contents` is what reading the file at `path` gave, an
/// error by its message.
pub fn keypair_from_file_contents(path: &str, contents: Result<Vec<u8>, String>) -> (result:
    Result<Keypair, ResolutionError>)
    ensures
        match contents {
            Err(reason) => result matches Err(e) && e@ == (ResolutionErrorView::KeypairFile {
                path: path@,
                reason: reason@,
            }),
            Ok(bytes) => match encoded_keypair(bytes@) {
                Ok(keypair) => result == Ok::<Keypair, ResolutionError>(keypair),
                Err(reason) => result matches Err(e) && e@ == (ResolutionErrorView::KeypairFile {
                    path: path@,
                    reason,
                }),
            },
        },
{
    let reason = match contents {
        Ok(bytes) => match keypair_from_json(bytes.as_slice()) {
            Ok(keypair) => {
                return Ok(keypair);
            },
            Err(reason) => reason,
        },
        Err(reason) => reason,
    };
    Err(ResolutionError::KeypairFile { path: String::from_str(path), reason })
}

/// The key pair that the bytes read from standard input give.
pub fn keypair_from_stream_contents(contents: Result<Vec<u8>, String>) -> (result: Result<
    Keypair,
    ResolutionError,
>)
    ensures
        match contents {
            Err(reason) => result matches Err(e) && e@ == (ResolutionErrorView::KeypairStream {
                reason: reason@,
            }),
            Ok(bytes) => match encoded_keypair(bytes@) {
                Ok(keypair) => result == Ok::<Keypair, ResolutionError>(keypair),
                Err(reason) => result matches Err(e) && e@ == (
                ResolutionErrorView::KeypairStream { reason }),
            },
        },
{
    let reason = match contents {
        Ok(bytes) => match keypair_from_json(bytes.as_slice()) {
            Ok(keypair) => {
                return Ok(keypair);
            },
            Err(reason) => reason,
        },
        Err(reason) => reason,
    };
    Err(ResolutionError::KeypairStream { reason })
}

/// Only a prompt, a file and standard input lead to a key pair: every other
/// source is refused, and no source of those three kinds is.
pub proof fn lemma_refused_kinds(source: SignerSourceView)
    ensures
        plan_of(source) is Refuse <==> source.kind is Usb || source.kind is Pubkey,
{
}

} // verus!
