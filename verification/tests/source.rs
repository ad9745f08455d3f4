use arborist::resolve::{keypair_plan, KeypairPlan};
use arborist::source::{
    parse_signer_source, parse_windows_signer_source, path_source, ParsedToken, SignerSource,
    SignerSourceError, SignerSourceKind,
};
use arborist::text::normalize_windows_token;
use solana_remote_wallet::locator::{Locator, Manufacturer};
use solana_sdk::derivation_path::DerivationPath;
use solana_sdk::pubkey::Pubkey;

fn parsed(token: &str) -> SignerSource {
    match parse_signer_source(token) {
        Ok(ParsedToken::Source(source)) => source,
        Ok(ParsedToken::PathCandidate(path)) => panic!("path candidate {:?}", path),
        Err(_) => panic!("no source in {:?}", token),
    }
}

#[test]
fn prompt_scheme() {
    let source = parsed("prompt:");
    assert!(matches!(source.kind, SignerSourceKind::Prompt));
    assert!(source.derivation_path.is_none());
    assert!(!source.legacy);
}

#[test]
fn prompt_scheme_with_key_query() {
    let source = parsed("prompt://?key=0/0");
    assert!(matches!(source.kind, SignerSourceKind::Prompt));
    assert_eq!(source.derivation_path, Some(DerivationPath::new_bip44(Some(0), Some(0))));
    assert!(!source.legacy);
}

#[test]
fn prompt_scheme_with_full_path_query() {
    let source = parsed("prompt://?full-path=m/44/501/1/2");
    assert_eq!(source.derivation_path, Some(DerivationPath::new_bip44(Some(1), Some(2))));
}

#[test]
fn prompt_scheme_with_bad_query() {
    assert!(matches!(
        parse_signer_source("prompt://?key=0/0/0"),
        Err(SignerSourceError::DerivationPathError(_))
    ));
    assert!(matches!(
        parse_signer_source("prompt://?other=1"),
        Err(SignerSourceError::DerivationPathError(_))
    ));
}

#[test]
fn file_scheme() {
    for token in ["file:/tmp/id.json", "FILE:/tmp/id.json", "File:/tmp/id.json"] {
        let source = parsed(token);
        match source.kind {
            SignerSourceKind::Filepath(path) => assert_eq!(path, "/tmp/id.json"),
            _ => panic!("not a file path"),
        }
        assert!(source.derivation_path.is_none());
        assert!(!source.legacy);
    }
    match parsed("file:relative/id.json").kind {
        SignerSourceKind::Filepath(path) => assert_eq!(path, "relative/id.json"),
        _ => panic!("not a file path"),
    }
}

#[test]
fn usb_scheme() {
    let source = parsed("usb://ledger");
    match source.kind {
        SignerSourceKind::Usb(locator) => {
            assert_eq!(locator, Locator { manufacturer: Manufacturer::Ledger, pubkey: None })
        }
        _ => panic!("not a hardware wallet"),
    }
    assert!(source.derivation_path.is_none());
    let source = parsed("usb://ledger?key=0/0");
    assert!(matches!(source.kind, SignerSourceKind::Usb(_)));
    assert_eq!(source.derivation_path, Some(DerivationPath::new_bip44(Some(0), Some(0))));
}

#[test]
fn usb_scheme_with_bad_locator() {
    assert!(matches!(
        parse_signer_source("usb://unknown-maker"),
        Err(SignerSourceError::RemoteWalletLocatorError(_))
    ));
    assert!(matches!(
        parse_signer_source("usb:"),
        Err(SignerSourceError::RemoteWalletLocatorError(_))
    ));
}

#[test]
fn usb_scheme_takes_key_queries_only() {
    assert!(matches!(
        parse_signer_source("usb://ledger?full-path=m/44/501/0/0"),
        Err(SignerSourceError::DerivationPathError(_))
    ));
}

#[test]
fn stdin_scheme_and_token() {
    for token in ["stdin:", "STDIN:", "-"] {
        let source = parsed(token);
        assert!(matches!(source.kind, SignerSourceKind::Stdin));
        assert!(!source.legacy);
    }
}

#[test]
fn ask_keyword_is_a_legacy_prompt() {
    let source = parsed("ASK");
    assert!(matches!(source.kind, SignerSourceKind::Prompt));
    assert!(source.derivation_path.is_none());
    assert!(source.legacy);
}

#[test]
fn bare_public_key() {
    let key = Pubkey::new_from_array([7u8; 32]);
    let source = parsed(&key.to_string());
    match source.kind {
        SignerSourceKind::Pubkey(found) => assert_eq!(found, key),
        _ => panic!("not a public key"),
    }
}

#[test]
fn unknown_scheme_is_not_recognized() {
    assert!(matches!(
        parse_signer_source("http://example.com/key"),
        Err(SignerSourceError::UnrecognizedSource)
    ));
    assert!(matches!(
        parse_signer_source("pubkey:abc"),
        Err(SignerSourceError::UnrecognizedSource)
    ));
}

#[test]
fn text_that_is_no_uri_is_not_recognized() {
    assert!(matches!(
        parse_signer_source("a path with spaces"),
        Err(SignerSourceError::UnrecognizedSource)
    ));
}

#[test]
fn other_tokens_are_path_candidates() {
    for token in ["/tmp/keys/id.json", "id.json", "ask", "relative/dir/key"] {
        match parse_signer_source(token) {
            Ok(ParsedToken::PathCandidate(path)) => assert_eq!(path, token),
            _ => panic!("{:?} is no path candidate", token),
        }
    }
}

#[test]
fn existing_path_is_a_key_file() {
    let source = path_source("/tmp/keys/id.json".to_string(), Ok(())).ok().unwrap();
    match source.kind {
        SignerSourceKind::Filepath(path) => assert_eq!(path, "/tmp/keys/id.json"),
        _ => panic!("not a file path"),
    }
    assert!(source.derivation_path.is_none());
    assert!(!source.legacy);
}

#[test]
fn missing_path_fails_with_the_probe_error() {
    let error = std::io::Error::new(std::io::ErrorKind::NotFound, "no such file");
    match path_source("/tmp/keys/nothing".to_string(), Err(error)) {
        Err(SignerSourceError::IoError(e)) => {
            assert_eq!(e.kind(), std::io::ErrorKind::NotFound);
            assert_eq!(e.to_string(), "no such file");
        }
        _ => panic!("no probe error"),
    }
}

#[test]
fn kind_names() {
    assert_eq!(SignerSourceKind::Prompt.as_ref(), "prompt");
    assert_eq!(SignerSourceKind::Filepath(String::new()).as_ref(), "file");
    assert_eq!(SignerSourceKind::Stdin.as_ref(), "stdin");
    assert_eq!(SignerSourceKind::Pubkey(Pubkey::default()).as_ref(), "pubkey");
    let locator = Locator { manufacturer: Manufacturer::Ledger, pubkey: None };
    assert_eq!(SignerSourceKind::Usb(locator).as_ref(), "usb");
}

#[test]
fn constructors() {
    let plain = SignerSource::new(SignerSourceKind::Stdin);
    assert!(!plain.legacy && plain.derivation_path.is_none());
    let legacy = SignerSource::new_legacy(SignerSourceKind::Prompt);
    assert!(legacy.legacy && legacy.derivation_path.is_none());
}

#[test]
fn plans_by_kind() {
    assert!(matches!(
        keypair_plan(parsed("prompt://?key=1")),
        KeypairPlan::Recover { derivation_path: Some(_), legacy: false }
    ));
    assert!(matches!(
        keypair_plan(parsed("ASK")),
        KeypairPlan::Recover { derivation_path: None, legacy: true }
    ));
    match keypair_plan(parsed("file:/tmp/id.json")) {
        KeypairPlan::ReadFile(path) => assert_eq!(path, "/tmp/id.json"),
        _ => panic!("no file plan"),
    }
    assert!(matches!(keypair_plan(parsed("-")), KeypairPlan::ReadStdin));
}

#[test]
fn windows_tokens_lose_quotes_and_backslashes() {
    assert_eq!(normalize_windows_token("'C:\\keys\\id.json'"), "C:/keys/id.json");
    assert_eq!(normalize_windows_token("''nested''"), "nested");
    assert_eq!(normalize_windows_token("'open"), "'open");
    assert_eq!(normalize_windows_token("close'"), "close'");
    assert_eq!(normalize_windows_token("'"), "'");
    assert_eq!(normalize_windows_token("''"), "");
    assert_eq!(normalize_windows_token("a\\b/c"), "a/b/c");
    assert_eq!(normalize_windows_token("plain"), "plain");
}

#[test]
fn windows_drive_letter_is_a_file_path() {
    match parse_windows_signer_source("'C:\\keys\\id.json'") {
        Ok(ParsedToken::Source(source)) => match source.kind {
            SignerSourceKind::Filepath(path) => assert_eq!(path, "C:/keys/id.json"),
            _ => panic!("not a file path"),
        },
        _ => panic!("no source"),
    }
    assert!(matches!(
        parse_signer_source("C:/keys/id.json"),
        Err(SignerSourceError::UnrecognizedSource)
    ));
    assert!(matches!(
        parse_windows_signer_source("http://example.com"),
        Err(SignerSourceError::UnrecognizedSource)
    ));
}

#[test]
fn windows_parser_knows_the_scheme_words() {
    match parse_windows_signer_source("'file:keys\\id.json'") {
        Ok(ParsedToken::Source(source)) => match source.kind {
            SignerSourceKind::Filepath(path) => assert_eq!(path, "keys/id.json"),
            _ => panic!("not a file path"),
        },
        _ => panic!("no source"),
    }
    assert!(matches!(
        parse_windows_signer_source("ASK"),
        Ok(ParsedToken::Source(SignerSource { legacy: true, .. }))
    ));
}
