//! Signer sources: where a signing key is to come from, and how a token
//! on the command line names one.

use vstd::prelude::*;
use solana_sdk::derivation_path::{DerivationPath, DerivationPathError};
use solana_sdk::pubkey::Pubkey;
use solana_remote_wallet::locator::{Locator, LocatorError};
use crate::text::{
    ascii_lowercase, forward_slashed, normalize_windows_token, str_eq, to_ascii_lowercase, to_chars,
    unquoted,
};
use crate::token::{
    any_query_derivation_path, ask_keyword, derivation_path_from_any_query,
    derivation_path_from_key_query, key_query_derivation_path, locator_from_token,
    parsed_pubkey, pubkey_from_token, split_uri_reference, standard_stream_token,
    uri_reference_parts, usb_locator, UriParts,
};
use vstd::string::StringExecFns;

verus! {

/// The kinds of signer source.
pub enum SignerSourceKind {
    /// A seed phrase typed at a prompt.
    Prompt,
    /// A key pair file.
    Filepath(String),
    /// A hardware wallet.
    Usb(Locator),
    /// A key pair read from standard input.
    Stdin,
    /// A bare public key.
    Pubkey(Pubkey),
}

/// A signer source kind with its texts as sequences of characters.
pub ghost enum SignerSourceKindView {
    Prompt,
    Filepath(Seq<char>),
    Usb(Locator),
    Stdin,
    Pubkey(Pubkey),
}

/// A parsed signer source.
pub struct SignerSource {
    pub kind: SignerSourceKind,
    pub derivation_path: Option<DerivationPath>,
    /// Whether the key is derived the way that came before hierarchical
    /// derivation.
    pub legacy: bool,
}

pub ghost struct SignerSourceView {
    pub kind: SignerSourceKindView,
    pub derivation_path: Option<DerivationPath>,
    pub legacy: bool,
}

/// Why a token names no signer source.
pub enum SignerSourceError {
    UnrecognizedSource,
    RemoteWalletLocatorError(LocatorError),
    DerivationPathError(DerivationPathError),
    IoError(std::io::Error),
}

/// What a token turned out to be, before any look at the file system.
pub enum ParsedToken {
    /// A signer source.
    Source(SignerSource),
    /// Neither a URI with a scheme, a keyword nor a public key: a file path,
    /// if a file of that name exists.
    PathCandidate(String),
}

pub ghost enum ParsedTokenView {
    Source(SignerSourceView),
    PathCandidate(Seq<char>),
}

impl SignerSourceKind {
    pub open spec fn view(&self) -> SignerSourceKindView {
        match *self {
            SignerSourceKind::Prompt => SignerSourceKindView::Prompt,
            SignerSourceKind::Filepath(path) => SignerSourceKindView::Filepath(path@),
            SignerSourceKind::Usb(locator) => SignerSourceKindView::Usb(locator),
            SignerSourceKind::Stdin => SignerSourceKindView::Stdin,
            SignerSourceKind::Pubkey(key) => SignerSourceKindView::Pubkey(key),
        }
    }

    /// The scheme word of the kind.
    pub open spec fn name(&self) -> Seq<char> {
        match *self {
            SignerSourceKind::Prompt => "prompt"@,
            SignerSourceKind::Filepath(_) => "file"@,
            SignerSourceKind::Usb(_) => "usb"@,
            SignerSourceKind::Stdin => "stdin"@,
            SignerSourceKind::Pubkey(_) => "pubkey"@,
        }
    }

    /// The scheme word of the kind.
    pub fn as_ref(&self) -> (word: &'static str)
        ensures
            word@ == self.name(),
    {
        match self {
            SignerSourceKind::Prompt => "prompt",
            SignerSourceKind::Filepath(_) => "file",
            SignerSourceKind::Usb(_) => "usb",
            SignerSourceKind::Stdin => "stdin",
            SignerSourceKind::Pubkey(_) => "pubkey",
        }
    }
}

impl SignerSourceView {
    /// A source of the given kind with no derivation path, not legacy.
    pub open spec fn plain(kind: SignerSourceKindView) -> SignerSourceView {
        SignerSourceView { kind, derivation_path: None, legacy: false }
    }

    /// A legacy source of the given kind with no derivation path.
    pub open spec fn legacy(kind: SignerSourceKindView) -> SignerSourceView {
        SignerSourceView { kind, derivation_path: None, legacy: true }
    }
}

impl SignerSource {
    pub open spec fn view(&self) -> SignerSourceView {
        SignerSourceView {
            kind: self.kind@,
            derivation_path: self.derivation_path,
            legacy: self.legacy,
        }
    }

    pub fn new(kind: SignerSourceKind) -> (source: Self)
        ensures
            source@ == SignerSourceView::plain(kind@),
    {
        SignerSource { kind, derivation_path: None, legacy: false }
    }

    pub fn new_legacy(kind: SignerSourceKind) -> (source: Self)
        ensures
            source@ == SignerSourceView::legacy(kind@),
    {
        SignerSource { kind, derivation_path: None, legacy: true }
    }
}

impl ParsedToken {
    pub open spec fn view(&self) -> ParsedTokenView {
        match *self {
            ParsedToken::Source(source) => ParsedTokenView::Source(source@),
            ParsedToken::PathCandidate(path) => ParsedTokenView::PathCandidate(path@),
        }
    }
}

/// The source that a URI with the given scheme names. `scheme` is in lower
/// case; `path` is the URI's path; `source` is the whole token. Where drive
/// letters count, a scheme of one character that is no scheme word is the
/// drive of a file path, and the token is that path.
pub open spec fn scheme_source(
    drive_letters: bool,
    scheme: Seq<char>,
    path: Seq<char>,
    source: Seq<char>,
) -> Result<ParsedTokenView, SignerSourceError> {
    if scheme == "prompt"@ {
        match any_query_derivation_path(source) {
            Ok(derivation_path) => Ok(
                ParsedTokenView::Source(
                    SignerSourceView {
                        kind: SignerSourceKindView::Prompt,
                        derivation_path,
                        legacy: false,
                    },
                ),
            ),
            Err(e) => Err(SignerSourceError::DerivationPathError(e)),
        }
    } else if scheme == "file"@ {
        Ok(ParsedTokenView::Source(SignerSourceView::plain(SignerSourceKindView::Filepath(path))))
    } else if scheme == "usb"@ {
        match usb_locator(source) {
            Err(e) => Err(SignerSourceError::RemoteWalletLocatorError(e)),
            Ok(locator) => match key_query_derivation_path(source) {
                Ok(derivation_path) => Ok(
                    ParsedTokenView::Source(
                        SignerSourceView {
                            kind: SignerSourceKindView::Usb(locator),
                            derivation_path,
                            legacy: false,
                        },
                    ),
                ),
                Err(e) => Err(SignerSourceError::DerivationPathError(e)),
            },
        }
    } else if scheme == "stdin"@ {
        Ok(ParsedTokenView::Source(SignerSourceView::plain(SignerSourceKindView::Stdin)))
    } else if drive_letters && scheme.len() == 1 {
        Ok(ParsedTokenView::Source(SignerSourceView::plain(SignerSourceKindView::Filepath(source))))
    } else {
        Err(SignerSourceError::UnrecognizedSource)
    }
}

/// The source that a token without a scheme names.
pub open spec fn bare_source(source: Seq<char>) -> ParsedTokenView {
    if source == "-"@ {
        ParsedTokenView::Source(SignerSourceView::plain(SignerSourceKindView::Stdin))
    } else if source == "ASK"@ {
        ParsedTokenView::Source(SignerSourceView::legacy(SignerSourceKindView::Prompt))
    } else {
        match parsed_pubkey(source) {
            Some(key) => ParsedTokenView::Source(
                SignerSourceView::plain(SignerSourceKindView::Pubkey(key)),
            ),
            None => ParsedTokenView::PathCandidate(source),
        }
    }
}

/// What a token is, given the scheme and path that it has as a URI
/// reference, if it reads as one.
pub open spec fn classified(
    drive_letters: bool,
    parts: Option<(Option<Seq<char>>, Seq<char>)>,
    source: Seq<char>,
) -> Result<ParsedTokenView, SignerSourceError> {
    match parts {
        None => Err(SignerSourceError::UnrecognizedSource),
        Some((Some(scheme), path)) => scheme_source(
            drive_letters,
            ascii_lowercase(scheme),
            path,
            source,
        ),
        Some((None, _)) => Ok(bare_source(source)),
    }
}

/// Whether `result` is what `expected` describes.
pub open spec fn is_parse_result(
    result: Result<ParsedToken, SignerSourceError>,
    expected: Result<ParsedTokenView, SignerSourceError>,
) -> bool {
    match result {
        Ok(token) => expected == Ok::<ParsedTokenView, SignerSourceError>(token@),
        Err(e) => expected == Err::<ParsedTokenView, SignerSourceError>(e),
    }
}

/// Classifies a token from the scheme and path that the URI parser found in
/// it. `drive_letters` says whether a scheme of one character is a drive.
pub fn classify_token(drive_letters: bool, parts: Option<UriParts>, source: &str) -> (result:
    Result<ParsedToken, SignerSourceError>)
    ensures
        is_parse_result(
            result,
            classified(
                drive_letters,
                match parts {
                    Some(p) => Some(p@),
                    None => None,
                },
                source@,
            ),
        ),
{
    let parts = match parts {
        Some(parts) => parts,
        None => {
            return Err(SignerSourceError::UnrecognizedSource);
        },
    };
    let UriParts { scheme, path } = parts;
    match scheme {
        Some(scheme) => {
            let scheme = to_ascii_lowercase(scheme.as_str());
            if str_eq(scheme.as_str(), "prompt") {
                match derivation_path_from_any_query(source) {
                    Ok(derivation_path) => Ok(
                        ParsedToken::Source(
                            SignerSource {
                                kind: SignerSourceKind::Prompt,
                                derivation_path,
                                legacy: false,
                            },
                        ),
                    ),
                    Err(e) => Err(SignerSourceError::DerivationPathError(e)),
                }
            } else if str_eq(scheme.as_str(), "file") {
                Ok(ParsedToken::Source(SignerSource::new(SignerSourceKind::Filepath(path))))
            } else if str_eq(scheme.as_str(), "usb") {
                let locator = match locator_from_token(source) {
                    Ok(locator) => locator,
                    Err(e) => {
                        return Err(SignerSourceError::RemoteWalletLocatorError(e));
                    },
                };
                match derivation_path_from_key_query(source) {
                    Ok(derivation_path) => Ok(
                        ParsedToken::Source(
                            SignerSource {
                                kind: SignerSourceKind::Usb(locator),
                                derivation_path,
                                legacy: false,
                            },
                        ),
                    ),
                    Err(e) => Err(SignerSourceError::DerivationPathError(e)),
                }
            } else if str_eq(scheme.as_str(), "stdin") {
                Ok(ParsedToken::Source(SignerSource::new(SignerSourceKind::Stdin)))
            } else if drive_letters && to_chars(scheme.as_str()).len() == 1 {
                Ok(
                    ParsedToken::Source(
                        SignerSource::new(SignerSourceKind::Filepath(String::from_str(source))),
                    ),
                )
            } else {
                Err(SignerSourceError::UnrecognizedSource)
            }
        },
        None => {
            if str_eq(source, standard_stream_token()) {
                Ok(ParsedToken::Source(SignerSource::new(SignerSourceKind::Stdin)))
            } else if str_eq(source, ask_keyword()) {
                Ok(ParsedToken::Source(SignerSource::new_legacy(SignerSourceKind::Prompt)))
            } else {
                match pubkey_from_token(source) {
                    Some(key) => Ok(
                        ParsedToken::Source(SignerSource::new(SignerSourceKind::Pubkey(key))),
                    ),
                    None => Ok(ParsedToken::PathCandidate(String::from_str(source))),
                }
            }
        },
    }
}

/// Parses a signer token as far as the text alone decides.
pub fn parse_signer_source(source: &str) -> (result: Result<ParsedToken, SignerSourceError>)
    ensures
        is_parse_result(result, classified(false, uri_reference_parts(source@), source@)),
{
    let parts = split_uri_reference(source);
    classify_token(false, parts, source)
}

/// The form in which a token is parsed on a Windows host.
pub open spec fn windows_token(source: Seq<char>) -> Seq<char> {
    forward_slashed(unquoted(source))
}

/// Parses a signer token on a Windows host: the token is taken without its
/// enclosing single quotes and with slashes for backslashes, and the drive
/// letter of an absolute path is no scheme.
pub fn parse_windows_signer_source(source: &str) -> (result: Result<
    ParsedToken,
    SignerSourceError,
>)
    ensures
        is_parse_result(
            result,
            classified(
                true,
                uri_reference_parts(windows_token(source@)),
                windows_token(source@),
            ),
        ),
{
    let token = normalize_windows_token(source);
    let parts = split_uri_reference(token.as_str());
    classify_token(true, parts, token.as_str())
}

/// Settles a path candidate by the outcome of the probe for its file: the
/// path is a key pair file where the probe found it.
pub fn path_source(path: String, probe: Result<(), std::io::Error>) -> (result: Result<
    SignerSource,
    SignerSourceError,
>)
    ensures
        match probe {
            Ok(_) => result matches Ok(source) && source@ == SignerSourceView::plain(
                SignerSourceKindView::Filepath(path@),
            ),
            Err(e) => result matches Err(SignerSourceError::IoError(cause)) && cause == e,
        },
{
    match probe {
        Ok(_) => Ok(SignerSource::new(SignerSourceKind::Filepath(path))),
        Err(e) => Err(SignerSourceError::IoError(e)),
    }
}

/// A URI whose scheme is one of the four scheme words, in any letter case,
/// names a source of that kind or fails with an error of the part that
/// failed, on every host; any other scheme is not recognized, but for a
/// drive letter where those count.
pub proof fn lemma_scheme_selects_kind(
    drive_letters: bool,
    scheme: Seq<char>,
    path: Seq<char>,
    source: Seq<char>,
)
    ensures
        ({
            let outcome = classified(drive_letters, Some((Some(scheme), path)), source);
            let word = ascii_lowercase(scheme);
            &&& word == "file"@ ==> outcome == Ok::<ParsedTokenView, SignerSourceError>(
                ParsedTokenView::Source(
                    SignerSourceView::plain(SignerSourceKindView::Filepath(path)),
                ),
            )
            &&& word == "stdin"@ ==> outcome == Ok::<ParsedTokenView, SignerSourceError>(
                ParsedTokenView::Source(SignerSourceView::plain(SignerSourceKindView::Stdin)),
            )
            &&& word == "prompt"@ ==> match outcome {
                Ok(ParsedTokenView::Source(s)) => s.kind == SignerSourceKindView::Prompt
                    && !s.legacy,
                Ok(_) => false,
                Err(e) => e is DerivationPathError,
            }
            &&& word == "usb"@ ==> match outcome {
                Ok(ParsedTokenView::Source(s)) => s.kind is Usb && !s.legacy,
                Ok(_) => false,
                Err(e) => e is DerivationPathError || e is RemoteWalletLocatorError,
            }
            &&& word != "file"@ && word != "stdin"@ && word != "prompt"@ && word != "usb"@
                ==> outcome == if drive_letters && scheme.len() == 1 {
                Ok::<ParsedTokenView, SignerSourceError>(
                    ParsedTokenView::Source(
                        SignerSourceView::plain(SignerSourceKindView::Filepath(source)),
                    ),
                )
            } else {
                Err::<ParsedTokenView, SignerSourceError>(SignerSourceError::UnrecognizedSource)
            }
        }),
{
    reveal_strlit("prompt");
    reveal_strlit("file");
    reveal_strlit("usb");
    reveal_strlit("stdin");
    assert("prompt"@.len() == 6);
    assert("file"@.len() == 4);
    assert("usb"@.len() == 3);
    assert("stdin"@.len() == 5);
}

/// A token without a scheme is the standard stream, the legacy prompt, a
/// public key where it spells one, and else a path candidate.
pub proof fn lemma_bare_token(drive_letters: bool, path: Seq<char>, source: Seq<char>)
    ensures
        ({
            let outcome = classified(drive_letters, Some((None, path)), source);
            &&& outcome is Ok
            &&& source != "-"@ && source != "ASK"@ ==> (outcome->Ok_0 is PathCandidate
                <==> parsed_pubkey(source) is None)
            &&& source != "-"@ && source != "ASK"@ && parsed_pubkey(source) is Some ==> outcome
                == Ok::<ParsedTokenView, SignerSourceError>(
                ParsedTokenView::Source(
                    SignerSourceView::plain(
                        SignerSourceKindView::Pubkey(parsed_pubkey(source)->Some_0),
                    ),
                ),
            )
        }),
{
}

} // verus!
