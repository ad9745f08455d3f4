//! Recovery of a key pair from a seed phrase typed at a prompt.
//!
//! The prompts themselves are the caller's: `recovery_step` takes each line
//! that was typed and says what to do next.

use vstd::prelude::*;
use solana_sdk::derivation_path::DerivationPath;
use solana_sdk::signer::keypair::Keypair;
use crate::keys::{
    derivation_path_length, derived_keypair, is_keypair_result, keypair_from_phrase,
    keypair_from_seed, keypair_from_seed_and_path, mnemonic_seed, mnemonic_validates,
    path_length, phrase_validates, seed_from_mnemonic, seed_keypair, stretch_seed,
    stretched_seed, Language, MAX_PATH_LENGTH,
};
use crate::text::{
    ascii_lowercase, lemma_trimming_keeps_words, sanitize_seed_phrase, sanitized, str_eq,
    to_ascii_lowercase, trim, trimmed, words_from,
};
use vstd::string::StringExecFns;

verus! {

/// Switches of the signer on the command line.
#[derive(Clone, Copy, Debug)]
pub struct SignerArgs {
    /// Take the seed phrase as it is typed, in no particular word list.
    pub skip_seed_phrase_validation: bool,
    /// Show the recovered public key and ask before going on.
    pub confirm_pubkey: bool,
}

/// Why no key pair was recovered.
#[derive(Debug)]
pub enum RecoveryError {
    /// The phrase validates in none of the supported languages.
    UnknownLanguage,
    /// The passphrase was not repeated as it was first typed.
    PassphraseMismatch,
    /// The key could not be derived from the seed.
    Derivation(String),
}

pub ghost enum RecoveryErrorView {
    UnknownLanguage,
    PassphraseMismatch,
    Derivation(Seq<char>),
}

impl RecoveryError {
    pub open spec fn view(&self) -> RecoveryErrorView {
        match *self {
            RecoveryError::UnknownLanguage => RecoveryErrorView::UnknownLanguage,
            RecoveryError::PassphraseMismatch => RecoveryErrorView::PassphraseMismatch,
            RecoveryError::Derivation(message) => RecoveryErrorView::Derivation(message@),
        }
    }

    /// The text of the error.
    pub fn message(&self) -> (text: String)
        ensures
            text@ == self@.text(),
    {
        match self {
            RecoveryError::UnknownLanguage => String::from_str(
                "Can't get mnemonic from seed phrases",
            ),
            RecoveryError::PassphraseMismatch => String::from_str("Passphrases did not match"),
            RecoveryError::Derivation(message) => message.clone(),
        }
    }
}

impl RecoveryErrorView {
    /// The text of the error.
    pub open spec fn text(self) -> Seq<char> {
        match self {
            RecoveryErrorView::UnknownLanguage => "Can't get mnemonic from seed phrases"@,
            RecoveryErrorView::PassphraseMismatch => "Passphrases did not match"@,
            RecoveryErrorView::Derivation(message) => message,
        }
    }
}

/// The supported languages, in the order in which a phrase is tried.
pub open spec fn languages() -> Seq<Language> {
    seq![
        Language::English,
        Language::ChineseSimplified,
        Language::ChineseTraditional,
        Language::Japanese,
        Language::Spanish,
        Language::Korean,
        Language::French,
        Language::Italian,
    ]
}

/// `found` is the first language in which the phrase validates, or `None`
/// where there is none.
pub open spec fn is_first_valid_language(phrase: Seq<char>, found: Option<Language>) -> bool {
    match found {
        Some(language) => exists|i: int|
            0 <= i < languages().len() && #[trigger] languages()[i] == language
                && phrase_validates(phrase, language) && forall|j: int|
                0 <= j < i ==> !phrase_validates(phrase, #[trigger] languages()[j]),
        None => forall|i: int|
            0 <= i < languages().len() ==> !phrase_validates(phrase, #[trigger] languages()[i]),
    }
}

/// The first language at or after position `i` in which the phrase
/// validates.
pub open spec fn first_valid_from(phrase: Seq<char>, i: int) -> Option<Language>
    decreases languages().len() - i,
{
    if 0 <= i < languages().len() {
        if phrase_validates(phrase, languages()[i]) {
            Some(languages()[i])
        } else {
            first_valid_from(phrase, i + 1)
        }
    } else {
        None
    }
}

/// The language in which a phrase is taken.
pub open spec fn first_valid_language(phrase: Seq<char>) -> Option<Language> {
    first_valid_from(phrase, 0)
}

fn language_at(i: usize) -> (language: Language)
    requires
        i < 8,
    ensures
        language == languages()[i as int],
{
    if i == 0 {
        Language::English
    } else if i == 1 {
        Language::ChineseSimplified
    } else if i == 2 {
        Language::ChineseTraditional
    } else if i == 3 {
        Language::Japanese
    } else if i == 4 {
        Language::Spanish
    } else if i == 5 {
        Language::Korean
    } else if i == 6 {
        Language::French
    } else {
        Language::Italian
    }
}

/// The first supported language whose word list and checksum the phrase
/// satisfies.
pub fn detect_language(phrase: &str) -> (found: Option<Language>)
    ensures
        found == first_valid_language(phrase@),
        is_first_valid_language(phrase@, found),
{
    let mut i: usize = 0;
    while i < 8
        invariant
            0 <= i <= 8,
            languages().len() == 8,
            first_valid_language(phrase@) == first_valid_from(phrase@, i as int),
            forall|j: int| 0 <= j < i ==> !phrase_validates(phrase@, #[trigger] languages()[j]),
        decreases 8 - i,
    {
        let language = language_at(i);
        if mnemonic_validates(phrase, language) {
            return Some(language);
        }
        i = i + 1;
    }
    None
}

/// A phrase that validates in two supported languages is taken in the one
/// that is tried first.
pub proof fn lemma_earlier_language_wins(
    phrase: Seq<char>,
    i: int,
    j: int,
    found: Option<Language>,
)
    requires
        0 <= i < j < languages().len(),
        phrase_validates(phrase, languages()[i]),
        phrase_validates(phrase, languages()[j]),
        is_first_valid_language(phrase, found),
    ensures
        found matches Some(language) && exists|k: int|
            0 <= k <= i && #[trigger] languages()[k] == language,
        found != Some(languages()[j]),
{
    assert(found is Some);
    let language = found->Some_0;
    let k = choose|k: int|
        0 <= k < languages().len() && #[trigger] languages()[k] == language && phrase_validates(
            phrase,
            language,
        ) && forall|m: int| 0 <= m < k ==> !phrase_validates(phrase, #[trigger] languages()[m]);
    assert(k <= i);
    assert(languages()[k] != languages()[j]);
}

/// Whether a passphrase has to be typed a second time: an empty one need
/// not be.
pub fn needs_confirmation(passphrase: &str) -> (needed: bool)
    ensures
        needed == (passphrase@.len() > 0),
{
    let chars = crate::text::to_chars(passphrase);
    chars.len() > 0
}

/// Checks the passphrase against its repetition, where one was asked for.
pub fn check_passphrase(passphrase: String, repeated: Option<&str>) -> (result: Result<
    String,
    RecoveryError,
>)
    ensures
        match repeated {
            Some(again) if again@ != passphrase@ => result matches Err(
                RecoveryError::PassphraseMismatch,
            ),
            _ => result matches Ok(p) && p@ == passphrase@,
        },
{
    match repeated {
        Some(again) => {
            if str_eq(again, passphrase.as_str()) {
                Ok(passphrase)
            } else {
                Err(RecoveryError::PassphraseMismatch)
            }
        },
        None => Ok(passphrase),
    }
}

/// The seed of a phrase and a passphrase: stretched from the phrase as it
/// stands where no language is given, and else the seed of the mnemonic in
/// that language.
pub open spec fn seed_of(
    phrase: Seq<char>,
    language: Option<Language>,
    passphrase: Seq<char>,
) -> Seq<u8> {
    match language {
        None => stretched_seed(phrase, passphrase),
        Some(language) => mnemonic_seed(phrase, language, passphrase),
    }
}

/// Whether a path has more components than a derivation can take.
pub open spec fn is_too_long(path: Option<DerivationPath>) -> bool {
    path matches Some(p) && derivation_path_length(p) > MAX_PATH_LENGTH
}

/// The reason given where a path is too long.
pub open spec fn too_long_text() -> Seq<char> {
    "derivation path has more than 255 components"@
}

/// The key pair at a derivation path below a seed. A path that is too long
/// gives an error, and no derivation is tried.
pub open spec fn keypair_at_path(seed: Seq<u8>, path: Option<DerivationPath>) -> Result<
    Keypair,
    Seq<char>,
> {
    if is_too_long(path) {
        Err(too_long_text())
    } else {
        derived_keypair(seed, path)
    }
}

/// The key pair of a seed: in legacy mode from the seed's own bytes, with no
/// regard to the path; else at the derivation path below the seed.
pub open spec fn keypair_of_seed(
    seed: Seq<u8>,
    path: Option<DerivationPath>,
    legacy: bool,
) -> Result<Keypair, Seq<char>> {
    if legacy {
        seed_keypair(seed)
    } else {
        keypair_at_path(seed, path)
    }
}

/// Derives the key pair at a derivation path below a seed, at the default
/// path where none is given. A path of more than 255 components is refused
/// before anything is derived.
pub fn derive_at_path(seed: &[u8], path: &Option<DerivationPath>) -> (keypair: Result<
    Keypair,
    String,
>)
    ensures
        is_keypair_result(keypair, keypair_at_path(seed@, *path)),
        is_too_long(*path) ==> keypair is Err,
{
    let too_long: bool = match path {
        Some(p) => path_length(p) > MAX_PATH_LENGTH,
        None => false,
    };
    if too_long {
        Err(String::from_str("derivation path has more than 255 components"))
    } else {
        keypair_from_seed_and_path(seed, path)
    }
}

/// The key pair that a phrase and a passphrase give.
pub open spec fn recovered(
    phrase: Seq<char>,
    language: Option<Language>,
    passphrase: Seq<char>,
    path: Option<DerivationPath>,
    legacy: bool,
) -> Result<Keypair, RecoveryErrorView> {
    if language matches Some(l) && !phrase_validates(phrase, l) {
        Err(RecoveryErrorView::UnknownLanguage)
    } else {
        match keypair_of_seed(seed_of(phrase, language, passphrase), path, legacy) {
            Ok(keypair) => Ok(keypair),
            Err(message) => Err(RecoveryErrorView::Derivation(message)),
        }
    }
}

/// Whether `result` is the outcome `expected`.
pub open spec fn is_recovery_result(
    result: Result<Keypair, RecoveryError>,
    expected: Result<Keypair, RecoveryErrorView>,
) -> bool {
    match result {
        Ok(keypair) => expected == Ok::<Keypair, RecoveryErrorView>(keypair),
        Err(e) => expected == Err::<Keypair, RecoveryErrorView>(e@),
    }
}

/// What has come back from a key derivation, as a recovery outcome.
pub fn derivation_outcome(derived: Result<Keypair, String>) -> (result: Result<
    Keypair,
    RecoveryError,
>)
    ensures
        match derived {
            Ok(keypair) => result == Ok::<Keypair, RecoveryError>(keypair),
            Err(message) => result matches Err(RecoveryError::Derivation(m)) && m@ == message@,
        },
{
    match derived {
        Ok(keypair) => Ok(keypair),
        Err(message) => Err(RecoveryError::Derivation(message)),
    }
}

/// Derives the key pair of a phrase and a passphrase. With a language the
/// phrase is a mnemonic of that language; without one it is taken as it
/// stands. In legacy mode the derivation path plays no part, and a phrase
/// taken as it stands always gives a key pair.
pub fn derive_keypair(
    phrase: &str,
    language: Option<Language>,
    passphrase: &str,
    derivation_path: &Option<DerivationPath>,
    legacy: bool,
) -> (result: Result<Keypair, RecoveryError>)
    ensures
        is_recovery_result(
            result,
            recovered(phrase@, language, passphrase@, *derivation_path, legacy),
        ),
        legacy && (language matches Some(l) ==> phrase_validates(phrase@, l)) ==> result is Ok,
{
    match language {
        None => {
            if legacy {
                derivation_outcome(keypair_from_phrase(phrase, passphrase))
            } else {
                let seed = stretch_seed(phrase, passphrase);
                derivation_outcome(derive_at_path(seed.as_slice(), derivation_path))
            }
        },
        Some(language) => {
            let seed = match seed_from_mnemonic(phrase, language, passphrase) {
                Some(seed) => seed,
                None => {
                    return Err(RecoveryError::UnknownLanguage);
                },
            };
            if legacy {
                derivation_outcome(keypair_from_seed(seed.as_slice()))
            } else {
                derivation_outcome(derive_at_path(seed.as_slice(), derivation_path))
            }
        },
    }
}

/// Recovery is a function of what was typed and asked for: two results for
/// the same phrase, language, passphrase, path and mode are the same.
pub proof fn lemma_recovery_is_deterministic(
    first: Result<Keypair, RecoveryError>,
    second: Result<Keypair, RecoveryError>,
    phrase: Seq<char>,
    language: Option<Language>,
    passphrase: Seq<char>,
    path: Option<DerivationPath>,
    legacy: bool,
)
    requires
        is_recovery_result(first, recovered(phrase, language, passphrase, path, legacy)),
        is_recovery_result(second, recovered(phrase, language, passphrase, path, legacy)),
    ensures
        first is Ok <==> second is Ok,
        first is Ok ==> first->Ok_0 == second->Ok_0,
        first is Err ==> first->Err_0@ == second->Err_0@,
{
}

/// In legacy mode the derivation path makes no difference.
pub proof fn lemma_legacy_ignores_path(
    phrase: Seq<char>,
    language: Option<Language>,
    passphrase: Seq<char>,
    a: Option<DerivationPath>,
    b: Option<DerivationPath>,
)
    ensures
        recovered(phrase, language, passphrase, a, true) == recovered(
            phrase,
            language,
            passphrase,
            b,
            true,
        ),
{
}

/// Whether an answer to "Continue? (y/n)" says yes: a single `y` in either
/// case, with any whitespace around it.
pub open spec fn is_affirmative_spec(answer: Seq<char>) -> bool {
    trimmed(ascii_lowercase(answer)) == "y"@
}

pub fn is_affirmative(answer: &str) -> (yes: bool)
    ensures
        yes == is_affirmative_spec(answer@),
{
    let lower = to_ascii_lowercase(answer);
    let trimmed = trim(lower.as_str());
    str_eq(trimmed.as_str(), "y")
}

/// What a recovery was asked for.
pub struct RecoveryRequest {
    pub args: SignerArgs,
    pub derivation_path: Option<DerivationPath>,
    pub legacy: bool,
}

/// What is asked of the user next.
#[derive(Clone, Copy, Debug, PartialEq, Eq, Structural)]
pub enum Prompt {
    Passphrase,
    PassphraseAgain,
    PubkeyConfirmation,
}

/// Where a recovery stands between two prompts.
pub enum RecoveryState {
    /// The seed phrase has been asked for.
    AwaitSeedPhrase,
    /// The passphrase has been asked for. The phrase is kept with the
    /// language it was found valid in, if it was validated.
    AwaitPassphrase { phrase: String, language: Option<Language> },
    /// The passphrase has been asked for a second time.
    AwaitPassphraseAgain { phrase: String, language: Option<Language>, passphrase: String },
    /// The key pair is there; the user has been asked whether to go on.
    AwaitAnswer { keypair: Keypair },
}

pub ghost enum RecoveryStateView {
    AwaitSeedPhrase,
    AwaitPassphrase { phrase: Seq<char>, language: Option<Language> },
    AwaitPassphraseAgain { phrase: Seq<char>, language: Option<Language>, passphrase: Seq<char> },
    AwaitAnswer { keypair: Keypair },
}

/// What follows an input.
pub enum RecoveryStep {
    /// Show the prompt and come back with the answer.
    Ask(Prompt, RecoveryState),
    /// The recovered key pair.
    Done(Keypair),
    /// Recovery has failed.
    Fail(RecoveryError),
    /// The user declined: the whole program is to end.
    Abort,
}

pub ghost enum RecoveryStepView {
    Ask(Prompt, RecoveryStateView),
    Done(Keypair),
    Fail(RecoveryErrorView),
    Abort,
}

impl RecoveryState {
    pub open spec fn view(&self) -> RecoveryStateView {
        match *self {
            RecoveryState::AwaitSeedPhrase => RecoveryStateView::AwaitSeedPhrase,
            RecoveryState::AwaitPassphrase { phrase, language } => {
                RecoveryStateView::AwaitPassphrase { phrase: phrase@, language }
            },
            RecoveryState::AwaitPassphraseAgain { phrase, language, passphrase } => {
                RecoveryStateView::AwaitPassphraseAgain {
                    phrase: phrase@,
                    language,
                    passphrase: passphrase@,
                }
            },
            RecoveryState::AwaitAnswer { keypair } => RecoveryStateView::AwaitAnswer { keypair },
        }
    }
}

impl RecoveryStep {
    pub open spec fn view(&self) -> RecoveryStepView {
        match *self {
            RecoveryStep::Ask(prompt, state) => RecoveryStepView::Ask(prompt, state@),
            RecoveryStep::Done(keypair) => RecoveryStepView::Done(keypair),
            RecoveryStep::Fail(e) => RecoveryStepView::Fail(e@),
            RecoveryStep::Abort => RecoveryStepView::Abort,
        }
    }
}

/// What follows a derivation: the key pair is handed out, after the user's
/// consent where that was asked for.
pub open spec fn after_derivation(
    outcome: Result<Keypair, RecoveryErrorView>,
    confirm_pubkey: bool,
) -> RecoveryStepView {
    match outcome {
        Ok(keypair) => if confirm_pubkey {
            RecoveryStepView::Ask(
                Prompt::PubkeyConfirmation,
                RecoveryStateView::AwaitAnswer { keypair },
            )
        } else {
            RecoveryStepView::Done(keypair)
        },
        Err(e) => RecoveryStepView::Fail(e),
    }
}

/// What follows the seed phrase. The phrase is taken without whitespace at
/// either end and with one space for each run of whitespace inside,
/// whether it is validated or not.
pub open spec fn after_seed_phrase(skip_validation: bool, input: Seq<char>) -> RecoveryStepView {
    let phrase = sanitized(input);
    if skip_validation {
        RecoveryStepView::Ask(
            Prompt::Passphrase,
            RecoveryStateView::AwaitPassphrase { phrase, language: None },
        )
    } else {
        match first_valid_language(phrase) {
            Some(language) => RecoveryStepView::Ask(
                Prompt::Passphrase,
                RecoveryStateView::AwaitPassphrase { phrase, language: Some(language) },
            ),
            None => RecoveryStepView::Fail(RecoveryErrorView::UnknownLanguage),
        }
    }
}

/// The step that an input leads to from a state.
pub open spec fn next_step(
    request: RecoveryRequest,
    state: RecoveryStateView,
    input: Seq<char>,
) -> RecoveryStepView {
    match state {
        RecoveryStateView::AwaitSeedPhrase => after_seed_phrase(
            request.args.skip_seed_phrase_validation,
            input,
        ),
        RecoveryStateView::AwaitPassphrase { phrase, language } => if input.len() > 0 {
            RecoveryStepView::Ask(
                Prompt::PassphraseAgain,
                RecoveryStateView::AwaitPassphraseAgain { phrase, language, passphrase: input },
            )
        } else {
            after_derivation(
                recovered(phrase, language, input, request.derivation_path, request.legacy),
                request.args.confirm_pubkey,
            )
        },
        RecoveryStateView::AwaitPassphraseAgain { phrase, language, passphrase } => if input
            != passphrase {
            RecoveryStepView::Fail(RecoveryErrorView::PassphraseMismatch)
        } else {
            after_derivation(
                recovered(phrase, language, passphrase, request.derivation_path, request.legacy),
                request.args.confirm_pubkey,
            )
        },
        RecoveryStateView::AwaitAnswer { keypair } => if is_affirmative_spec(input) {
            RecoveryStepView::Done(keypair)
        } else {
            RecoveryStepView::Abort
        },
    }
}

/// The step after a derivation has come back.
pub fn finish_derivation(outcome: Result<Keypair, RecoveryError>, confirm_pubkey: bool) -> (step:
    RecoveryStep)
    ensures
        step@ == after_derivation(
            match outcome {
                Ok(keypair) => Ok(keypair),
                Err(e) => Err(e@),
            },
            confirm_pubkey,
        ),
{
    match outcome {
        Ok(keypair) => {
            if confirm_pubkey {
                RecoveryStep::Ask(Prompt::PubkeyConfirmation, RecoveryState::AwaitAnswer { keypair })
            } else {
                RecoveryStep::Done(keypair)
            }
        },
        Err(e) => RecoveryStep::Fail(e),
    }
}

/// Takes a recovery one input further. It starts in
/// `RecoveryState::AwaitSeedPhrase`, with the seed phrase as first input.
pub fn recovery_step(request: &RecoveryRequest, state: RecoveryState, input: &str) -> (step:
    RecoveryStep)
    ensures
        step@ == next_step(*request, state@, input@),
{
    match state {
        RecoveryState::AwaitSeedPhrase => {
            let phrase = sanitize_seed_phrase(input);
            if request.args.skip_seed_phrase_validation {
                RecoveryStep::Ask(
                    Prompt::Passphrase,
                    RecoveryState::AwaitPassphrase { phrase, language: None },
                )
            } else {
                match detect_language(phrase.as_str()) {
                    Some(language) => RecoveryStep::Ask(
                        Prompt::Passphrase,
                        RecoveryState::AwaitPassphrase { phrase, language: Some(language) },
                    ),
                    None => RecoveryStep::Fail(RecoveryError::UnknownLanguage),
                }
            }
        },
        RecoveryState::AwaitPassphrase { phrase, language } => {
            if needs_confirmation(input) {
                RecoveryStep::Ask(
                    Prompt::PassphraseAgain,
                    RecoveryState::AwaitPassphraseAgain {
                        phrase,
                        language,
                        passphrase: String::from_str(input),
                    },
                )
            } else {
                let outcome = derive_keypair(
                    phrase.as_str(),
                    language,
                    input,
                    &request.derivation_path,
                    request.legacy,
                );
                finish_derivation(outcome, request.args.confirm_pubkey)
            }
        },
        RecoveryState::AwaitPassphraseAgain { phrase, language, passphrase } => {
            match check_passphrase(passphrase, Some(input)) {
                Err(e) => RecoveryStep::Fail(e),
                Ok(passphrase) => {
                    let outcome = derive_keypair(
                        phrase.as_str(),
                        language,
                        passphrase.as_str(),
                        &request.derivation_path,
                        request.legacy,
                    );
                    finish_derivation(outcome, request.args.confirm_pubkey)
                },
            }
        },
        RecoveryState::AwaitAnswer { keypair } => {
            if is_affirmative(input) {
                RecoveryStep::Done(keypair)
            } else {
                RecoveryStep::Abort
            }
        },
    }
}

/// Only the words of what was typed as seed phrase count, and their order:
/// two inputs with the same words lead to the same step, in either mode of
/// validation.
pub proof fn lemma_whitespace_does_not_matter(
    request: RecoveryRequest,
    first: Seq<char>,
    second: Seq<char>,
)
    requires
        words_from(first, 0) == words_from(second, 0),
    ensures
        next_step(request, RecoveryStateView::AwaitSeedPhrase, first) == next_step(
            request,
            RecoveryStateView::AwaitSeedPhrase,
            second,
        ),
{
}

/// The phrase that is kept is the input trimmed, with each inner run of
/// whitespace collapsed to one space: trimming first changes nothing.
pub proof fn lemma_phrase_is_trimmed_and_collapsed(skip_validation: bool, input: Seq<char>)
    ensures
        after_seed_phrase(skip_validation, input) == after_seed_phrase(
            skip_validation,
            trimmed(input),
        ),
        after_seed_phrase(skip_validation, input) matches RecoveryStepView::Ask(
            _,
            RecoveryStateView::AwaitPassphrase { phrase, .. },
        ) ==> phrase == sanitized(trimmed(input)),
{
    lemma_trimming_keeps_words(input);
}

/// A passphrase that is repeated differently fails the recovery, whatever
/// the phrase, its language, the path and the mode are: nothing is derived.
pub proof fn lemma_mismatch_fails(
    request: RecoveryRequest,
    phrase: Seq<char>,
    language: Option<Language>,
    passphrase: Seq<char>,
    repeated: Seq<char>,
)
    requires
        repeated != passphrase,
    ensures
        next_step(
            request,
            RecoveryStateView::AwaitPassphraseAgain { phrase, language, passphrase },
            repeated,
        ) == RecoveryStepView::Fail(RecoveryErrorView::PassphraseMismatch),
{
}

/// A key pair is handed out only after a derivation that gave it, and with
/// confirmation switched on only on an affirmative answer.
pub proof fn lemma_done_only_after_consent(
    request: RecoveryRequest,
    state: RecoveryStateView,
    input: Seq<char>,
    keypair: Keypair,
)
    requires
        next_step(request, state, input) == RecoveryStepView::Done(keypair),
        request.args.confirm_pubkey,
    ensures
        state == (RecoveryStateView::AwaitAnswer { keypair }),
        is_affirmative_spec(input),
{
}

} // verus!
