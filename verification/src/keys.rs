//! Seeds and key pairs, as the mnemonic and key crates compute them.
//!
//! Every executable item here is believed, not proved: each names the
//! function it stands for.

use vstd::prelude::*;
use solana_sdk::derivation_path::DerivationPath;
use solana_sdk::signer::keypair::Keypair;

verus! {

#[verifier::external_type_specification]
#[verifier::external_body]
pub struct ExKeypair(Keypair);

/// The word lists that a seed phrase may be written in.
#[derive(Clone, Copy, Debug, PartialEq, Eq, Structural)]
pub enum Language {
    English,
    ChineseSimplified,
    ChineseTraditional,
    Japanese,
    Spanish,
    Korean,
    French,
    Italian,
}

/// Whether `bip39::Mnemonic::from_phrase` accepts a phrase in a language:
/// its words are of that word list and its checksum holds.
pub uninterp spec fn phrase_validates(phrase: Seq<char>, language: Language) -> bool;

/// The bytes of the `bip39::Seed` of a mnemonic and a passphrase.
pub uninterp spec fn mnemonic_seed(
    phrase: Seq<char>,
    language: Language,
    passphrase: Seq<char>,
) -> Seq<u8>;

/// What `generate_seed_from_seed_phrase_and_passphrase` returns.
pub uninterp spec fn stretched_seed(phrase: Seq<char>, passphrase: Seq<char>) -> Seq<u8>;

/// What `keypair_from_seed` returns, an error by its message.
pub uninterp spec fn seed_keypair(seed: Seq<u8>) -> Result<Keypair, Seq<char>>;

/// What `keypair_from_seed_and_derivation_path` returns, an error by its
/// message.
pub uninterp spec fn derived_keypair(seed: Seq<u8>, path: Option<DerivationPath>) -> Result<
    Keypair,
    Seq<char>,
>;

/// The number of components of a derivation path: the length of the slice
/// that `DerivationPath::path` returns.
pub uninterp spec fn derivation_path_length(path: DerivationPath) -> nat;

/// The most components that a derivation path may have: each one takes the
/// derived key one level down, and the level is kept in eight bits.
pub const MAX_PATH_LENGTH: usize = 255;

/// What `read_keypair` returns for a reader over the given bytes, an error
/// by its message.
pub uninterp spec fn encoded_keypair(bytes: Seq<u8>) -> Result<Keypair, Seq<char>>;

/// Whether a key pair result is the named one.
pub open spec fn is_keypair_result(
    result: Result<Keypair, String>,
    named: Result<Keypair, Seq<char>>,
) -> bool {
    match result {
        Ok(keypair) => named == Ok::<Keypair, Seq<char>>(keypair),
        Err(message) => named == Err::<Keypair, Seq<char>>(message@),
    }
}

/// `bip39::Mnemonic::from_phrase` with the language, for its verdict alone.
#[verifier::external_body]
pub(crate) fn mnemonic_validates(phrase: &str, language: Language) -> (valid: bool)
    ensures
        valid == phrase_validates(phrase@, language),
{
    bip39::Mnemonic::from_phrase(phrase, match language {
        Language::English => bip39::Language::English,
        Language::ChineseSimplified => bip39::Language::ChineseSimplified,
        Language::ChineseTraditional => bip39::Language::ChineseTraditional,
        Language::Japanese => bip39::Language::Japanese,
        Language::Spanish => bip39::Language::Spanish,
        Language::Korean => bip39::Language::Korean,
        Language::French => bip39::Language::French,
        Language::Italian => bip39::Language::Italian,
    }).is_ok()
}

/// `bip39::Seed::new` on the mnemonic that `bip39::Mnemonic::from_phrase`
/// makes of the phrase, then `Seed::as_bytes`: 64 bytes, or `None` where the
/// phrase does not validate in the language.
#[verifier::external_body]
pub(crate) fn seed_from_mnemonic(phrase: &str, language: Language, passphrase: &str) -> (seed:
    Option<Vec<u8>>)
    ensures
        seed is Some <==> phrase_validates(phrase@, language),
        seed matches Some(bytes) ==> bytes@ == mnemonic_seed(phrase@, language, passphrase@)
            && bytes@.len() == 64,
{
    let mnemonic = bip39::Mnemonic::from_phrase(phrase, match language {
        Language::English => bip39::Language::English,
        Language::ChineseSimplified => bip39::Language::ChineseSimplified,
        Language::ChineseTraditional => bip39::Language::ChineseTraditional,
        Language::Japanese => bip39::Language::Japanese,
        Language::Spanish => bip39::Language::Spanish,
        Language::Korean => bip39::Language::Korean,
        Language::French => bip39::Language::French,
        Language::Italian => bip39::Language::Italian,
    }).ok()?;
    Some(bip39::Seed::new(&mnemonic, passphrase).as_bytes().to_vec())
}

/// `solana_sdk::signature::generate_seed_from_seed_phrase_and_passphrase`:
/// 64 bytes stretched from the phrase as it stands, without validation.
#[verifier::external_body]
pub(crate) fn stretch_seed(phrase: &str, passphrase: &str) -> (seed: Vec<u8>)
    ensures
        seed@ == stretched_seed(phrase@, passphrase@),
        seed@.len() == 64,
{
    solana_sdk::signature::generate_seed_from_seed_phrase_and_passphrase(phrase, passphrase)
}

/// `solana_sdk::signature::keypair_from_seed`: the key pair whose secret is
/// the first 32 bytes of the seed. It fails exactly on a seed shorter than
/// that.
#[verifier::external_body]
pub(crate) fn keypair_from_seed(seed: &[u8]) -> (keypair: Result<Keypair, String>)
    ensures
        is_keypair_result(keypair, seed_keypair(seed@)),
        keypair is Ok <==> seed@.len() >= 32,
{
    solana_sdk::signature::keypair_from_seed(seed).map_err(|e| e.to_string())
}

/// `solana_sdk::signature::keypair_from_seed_phrase_and_passphrase`, which
/// is `keypair_from_seed` on the stretched seed.
#[verifier::external_body]
pub(crate) fn keypair_from_phrase(phrase: &str, passphrase: &str) -> (keypair: Result<
    Keypair,
    String,
>)
    ensures
        is_keypair_result(keypair, seed_keypair(stretched_seed(phrase@, passphrase@))),
        keypair is Ok,
{
    solana_sdk::signature::keypair_from_seed_phrase_and_passphrase(phrase, passphrase).map_err(
        |e| e.to_string(),
    )
}

/// `DerivationPath::path` of `solana_sdk`, for the length of the slice.
#[verifier::external_body]
pub(crate) fn path_length(path: &DerivationPath) -> (length: usize)
    ensures
        length == derivation_path_length(*path),
{
    path.path().len()
}

/// `solana_sdk::signature::keypair_from_seed_and_derivation_path`: the key
/// pair at the path below the seed's master key, at the default path of two
/// components where none is given. The derivation counts its levels in
/// eight bits and overflows on a longer path, which is left out.
#[verifier::external_body]
pub(crate) fn keypair_from_seed_and_path(seed: &[u8], path: &Option<DerivationPath>) -> (keypair:
    Result<Keypair, String>)
    requires
        *path matches Some(p) ==> derivation_path_length(p) <= MAX_PATH_LENGTH,
    ensures
        is_keypair_result(keypair, derived_keypair(seed@, *path)),
{
    solana_sdk::signature::keypair_from_seed_and_derivation_path(seed, path.clone()).map_err(
        |e| e.to_string(),
    )
}

/// `solana_sdk::signature::read_keypair` on a reader over bytes in memory:
/// the key pair that a JSON array of 64 numbers spells.
#[verifier::external_body]
pub(crate) fn keypair_from_json(bytes: &[u8]) -> (keypair: Result<Keypair, String>)
    ensures
        is_keypair_result(keypair, encoded_keypair(bytes@)),
{
    let mut reader: &[u8] = bytes;
    solana_sdk::signature::read_keypair(&mut reader).map_err(|e| e.to_string())
}

} // verus!
