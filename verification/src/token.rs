//! What the URI, key and wallet crates read out of a signer token.
//!
//! Every item here is believed, not proved: each names the function it
//! stands for.

use vstd::prelude::*;
use std::str::FromStr;
use solana_sdk::derivation_path::{DerivationPath, DerivationPathError};
use solana_sdk::pubkey::Pubkey;
use solana_remote_wallet::locator::{Locator, LocatorError};
use uriparse::URIReference;

verus! {

#[verifier::external_type_specification]
#[verifier::external_body]
pub struct ExPubkey(Pubkey);

#[verifier::external_type_specification]
#[verifier::external_body]
pub struct ExDerivationPath(DerivationPath);

#[verifier::external_type_specification]
#[verifier::external_body]
pub struct ExDerivationPathError(DerivationPathError);

#[verifier::external_type_specification]
#[verifier::external_body]
pub struct ExLocator(Locator);

#[verifier::external_type_specification]
#[verifier::external_body]
pub struct ExLocatorError(LocatorError);

#[verifier::external_type_specification]
#[verifier::external_body]
pub struct ExIoError(std::io::Error);

/// The scheme and the path of a token that reads as a URI reference.
pub struct UriParts {
    /// The scheme, as `Scheme::as_str` gives it.
    pub scheme: Option<String>,
    /// The path, as its `Display` writes it.
    pub path: String,
}

impl UriParts {
    pub open spec fn view(&self) -> (Option<Seq<char>>, Seq<char>) {
        (
            match self.scheme {
                Some(s) => Some(s@),
                None => None,
            },
            self.path@,
        )
    }
}

/// Scheme and path that `uriparse::URIReference::try_from` finds in a
/// text, or `None` where it rejects the text.
pub uninterp spec fn uri_reference_parts(source: Seq<char>) -> Option<(Option<Seq<char>>, Seq<char>)>;

/// What `DerivationPath::from_uri_any_query` returns for the URI reference
/// that a text reads as.
pub uninterp spec fn any_query_derivation_path(source: Seq<char>) -> Result<
    Option<DerivationPath>,
    DerivationPathError,
>;

/// What `DerivationPath::from_uri_key_query` returns for the URI reference
/// that a text reads as.
pub uninterp spec fn key_query_derivation_path(source: Seq<char>) -> Result<
    Option<DerivationPath>,
    DerivationPathError,
>;

/// What `Locator::new_from_path` returns for a text.
pub uninterp spec fn usb_locator(source: Seq<char>) -> Result<Locator, LocatorError>;

/// The key that `Pubkey::from_str` reads from a text, or `None` where it
/// fails.
pub uninterp spec fn parsed_pubkey(source: Seq<char>) -> Option<Pubkey>;

/// `uriparse::URIReference::try_from` on a text, then `scheme`,
/// `Scheme::as_str` and `path` of the result. The contract only names what
/// comes back: the same text always splits the same way.
#[verifier::external_body]
pub(crate) fn split_uri_reference(source: &str) -> (parts: Option<UriParts>)
    ensures
        match parts {
            Some(p) => uri_reference_parts(source@) == Some(p@),
            None => uri_reference_parts(source@) is None,
        },
{
    match URIReference::try_from(source) {
        Ok(uri) => Some(
            UriParts {
                scheme: uri.scheme().map(|s| s.as_str().to_string()),
                path: uri.path().to_string(),
            },
        ),
        Err(_) => None,
    }
}

/// `DerivationPath::from_uri_any_query` of `solana_sdk`, on the URI
/// reference that the text reads as. A text that is no URI reference gives
/// an invalid-path error that carries the parser's message.
#[verifier::external_body]
pub(crate) fn derivation_path_from_any_query(source: &str) -> (path: Result<
    Option<DerivationPath>,
    DerivationPathError,
>)
    ensures
        path == any_query_derivation_path(source@),
{
    match URIReference::try_from(source) {
        Ok(uri) => DerivationPath::from_uri_any_query(&uri),
        Err(e) => Err(DerivationPathError::InvalidDerivationPath(e.to_string())),
    }
}

/// `DerivationPath::from_uri_key_query` of `solana_sdk`, on the URI
/// reference that the text reads as. A text that is no URI reference gives
/// an invalid-path error that carries the parser's message.
#[verifier::external_body]
pub(crate) fn derivation_path_from_key_query(source: &str) -> (path: Result<
    Option<DerivationPath>,
    DerivationPathError,
>)
    ensures
        path == key_query_derivation_path(source@),
{
    match URIReference::try_from(source) {
        Ok(uri) => DerivationPath::from_uri_key_query(&uri),
        Err(e) => Err(DerivationPathError::InvalidDerivationPath(e.to_string())),
    }
}

/// `Locator::new_from_path` of `solana_remote_wallet`: the hardware wallet
/// that a `usb:` URI names.
#[verifier::external_body]
pub(crate) fn locator_from_token(source: &str) -> (locator: Result<Locator, LocatorError>)
    ensures
        locator == usb_locator(source@),
{
    Locator::new_from_path(source)
}

/// `Pubkey::from_str` of `solana_sdk`: the key that a base-58 text spells.
#[verifier::external_body]
pub(crate) fn pubkey_from_token(source: &str) -> (key: Option<Pubkey>)
    ensures
        key == parsed_pubkey(source@),
{
    Pubkey::from_str(source).ok()
}

/// The constant `solana_clap_v3_utils::input_parsers::STDOUT_OUTFILE_TOKEN`.
#[verifier::external_body]
pub(crate) fn standard_stream_token() -> (token: &'static str)
    ensures
        token@ == "-"@,
{
    solana_clap_v3_utils::input_parsers::STDOUT_OUTFILE_TOKEN
}

/// The constant `solana_clap_v3_utils::keypair::ASK_KEYWORD`.
#[verifier::external_body]
pub(crate) fn ask_keyword() -> (token: &'static str)
    ensures
        token@ == "ASK"@,
{
    solana_clap_v3_utils::keypair::ASK_KEYWORD
}

} // verus!
