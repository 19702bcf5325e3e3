//! Mnemonic phrases of the English BIP39 word list: the entropy that a phrase
//! encodes, the phrase of an entropy, the seed of a phrase, and the words
//! that start with a prefix. The word list, the checksum and the key
//! stretching are those of the `bip39` library.

use vstd::prelude::*;
use vstd::string::StringExecFns;

verus! {

/// Why a value that a caller handed in was refused.
#[derive(Clone, Debug, PartialEq, Eq)]
pub enum LibMcError {
    /// The input is not what the operation takes; the text says why.
    InvalidInput(String),
}

/// What `Mnemonic::from_phrase` makes of `phrase` with the English word
/// list: the entropy that the phrase encodes, or the text of the error.
pub uninterp spec fn english_phrase_entropy(phrase: Seq<char>) -> Result<Seq<u8>, Seq<char>>;

/// The phrase that `Mnemonic::from_entropy` writes for `entropy` with the
/// English word list.
pub uninterp spec fn english_entropy_phrase(entropy: Seq<u8>) -> Seq<char>;

/// The seed that `Seed::new` derives from the mnemonic of `phrase` and from
/// `passphrase`, or the text of the error where `phrase` is no mnemonic.
pub uninterp spec fn english_phrase_seed(phrase: Seq<char>, passphrase: Seq<char>) -> Result<
    Seq<u8>,
    Seq<char>,
>;

/// The words of the English word list that start with `prefix`, in the order
/// of the list.
pub uninterp spec fn english_words_by_prefix(prefix: Seq<char>) -> Seq<Seq<char>>;

/// The lengths, in bytes, of the entropy of a mnemonic of 12, 15, 18, 21 or
/// 24 words.
pub open spec fn is_entropy_length(n: nat) -> bool {
    n == 16 || n == 20 || n == 24 || n == 28 || n == 32
}

/// The length of a seed in bytes.
pub const SEED_LENGTH: usize = 64;

/// The text of each string of a list.
pub open spec fn texts(words: Seq<String>) -> Seq<Seq<char>> {
    Seq::new(words.len(), |i: int| words[i]@)
}

/// The strings of `words` in a row, with `sep` between each two.
pub open spec fn joined(words: Seq<Seq<char>>, sep: Seq<char>) -> Seq<char>
    decreases words.len(),
{
    if words.len() == 0 {
        Seq::empty()
    } else if words.len() == 1 {
        words[0]
    } else {
        joined(words.drop_last(), sep) + sep + words.last()
    }
}

/// The failure that reports the parser's message `message`.
pub open spec fn invalid_mnemonic_text(message: Seq<char>) -> Seq<char> {
    "Invalid mnemonic: "@ + message
}

/// Whether `res` gives the bytes of `parsed`, or reports its message as an
/// invalid input.
pub open spec fn reports(
    res: Result<Vec<u8>, LibMcError>,
    parsed: Result<Seq<u8>, Seq<char>>,
) -> bool {
    match res {
        Ok(bytes) => parsed matches Ok(named) && named == bytes@,
        Err(LibMcError::InvalidInput(text)) => parsed is Err && text@ == invalid_mnemonic_text(
            parsed->Err_0,
        ),
    }
}

/// Calls `Mnemonic::from_phrase` with the English word list and hands out the
/// entropy of the mnemonic, or the text of the library's error. The contract
/// names the outcome, and says that an entropy has one of the five lengths
/// that the library's mnemonic types have; neither is proved here.
#[verifier::external_body]
fn phrase_entropy(phrase: &str) -> (r: Result<Vec<u8>, String>)
    ensures
        r matches Ok(entropy) ==> (english_phrase_entropy(phrase@) matches Ok(named) && named
            == entropy@),
        r matches Ok(entropy) ==> is_entropy_length(entropy@.len()),
        r matches Err(message) ==> (english_phrase_entropy(phrase@) matches Err(named) && named
            == message@),
{
    match bip39::Mnemonic::from_phrase(phrase, bip39::Language::English) {
        Ok(mnemonic) => Ok(mnemonic.entropy().to_vec()),
        Err(err) => Err(err.to_string()),
    }
}

/// Calls `Mnemonic::from_entropy` with the English word list and hands out
/// the phrase. The library accepts an entropy of 16, 20, 24, 28 or 32 bytes;
/// the contract says that such an entropy gets a phrase, and names it.
#[verifier::external_body]
fn entropy_phrase(entropy: &[u8]) -> (r: Option<String>)
    requires
        is_entropy_length(entropy@.len()),
    ensures
        r is Some,
        r matches Some(phrase) ==> phrase@ == english_entropy_phrase(entropy@),
{
    bip39::Mnemonic::from_entropy(entropy, bip39::Language::English).ok().map(
        |mnemonic| mnemonic.into_phrase(),
    )
}

/// Calls `Seed::new` on the mnemonic that `Mnemonic::from_phrase` reads from
/// `phrase` with the English word list, and hands out the seed's bytes, or
/// the text of the library's error where the phrase is no mnemonic. The
/// contract names the outcome and says that a seed has 64 bytes.
#[verifier::external_body]
fn phrase_seed(phrase: &str, passphrase: &str) -> (r: Result<Vec<u8>, String>)
    ensures
        r matches Ok(seed) ==> (english_phrase_seed(phrase@, passphrase@) matches Ok(named)
            && named == seed@),
        r matches Ok(seed) ==> seed@.len() == SEED_LENGTH,
        r matches Err(message) ==> (english_phrase_seed(phrase@, passphrase@) matches Err(named)
            && named == message@),
{
    match bip39::Mnemonic::from_phrase(phrase, bip39::Language::English) {
        Ok(mnemonic) => Ok(bip39::Seed::new(&mnemonic, passphrase).as_bytes().to_vec()),
        Err(err) => Err(err.to_string()),
    }
}

/// Calls `WordList::get_words_by_prefix` on the English word list and hands
/// out the words as strings. The contract names the list of words.
#[verifier::external_body]
fn words_with_prefix(prefix: &str) -> (r: Vec<String>)
    ensures
        texts(r@) == english_words_by_prefix(prefix@),
{
    bip39::Language::English.wordlist().get_words_by_prefix(prefix).iter().map(
        |word| word.to_string(),
    ).collect()
}

/// Passes on the bytes that a phrase was read to, or reports the parser's
/// message as an invalid input.
pub fn report_invalid_mnemonic(parsed: Result<Vec<u8>, String>) -> (res: Result<
    Vec<u8>,
    LibMcError,
>)
    ensures
        match parsed {
            Ok(bytes) => res matches Ok(out) && out@ == bytes@,
            Err(message) => res matches Err(LibMcError::InvalidInput(text)) && text@
                == invalid_mnemonic_text(message@),
        },
{
    match parsed {
        Ok(bytes) => Ok(bytes),
        Err(message) => {
            let text = String::from_str("Invalid mnemonic: ").concat(message.as_str());
            Err(LibMcError::InvalidInput(text))
        },
    }
}

/// The strings of `words` in a row, with `sep` between each two.
pub fn join_words(words: &Vec<String>, sep: &str) -> (res: String)
    ensures
        res@ == joined(texts(words@), sep@),
{
    let mut res = String::new();
    let mut i: usize = 0;
    while i < words.len()
        invariant
            i <= words@.len(),
            res@ == joined(texts(words@).subrange(0, i as int), sep@),
        decreases words@.len() - i,
    {
        proof {
            let before = texts(words@).subrange(0, i as int);
            let after = texts(words@).subrange(0, i + 1);
            assert(after.drop_last() =~= before);
            assert(after.last() == words@[i as int]@);
            if i == 0 {
                assert(after[0] == words@[0]@);
                assert(Seq::<char>::empty() + words@[0]@ =~= words@[0]@);
            }
        }
        if i > 0 {
            res.append(sep);
        }
        res.append(words[i].as_str());
        i = i + 1;
    }
    assert(texts(words@).subrange(0, i as int) =~= texts(words@));
    res
}

/// The entropy that the mnemonic `mnemonic` encodes. A phrase that is no
/// mnemonic of the English word list is reported as an invalid input, with
/// the parser's message.
pub fn mc_bip39_entropy_from_mnemonic(mnemonic: &str) -> (res: Result<Vec<u8>, LibMcError>)
    ensures
        reports(res, english_phrase_entropy(mnemonic@)),
        res matches Ok(entropy) ==> is_entropy_length(entropy@.len()),
{
    report_invalid_mnemonic(phrase_entropy(mnemonic))
}

/// The mnemonic that encodes `entropy`, or `None` where the length of
/// `entropy` is not 16, 20, 24, 28 or 32 bytes.
pub fn mc_bip39_entropy_to_mnemonic(entropy: &Vec<u8>) -> (res: Option<String>)
    ensures
        res is Some <==> is_entropy_length(entropy@.len()),
        res matches Some(phrase) ==> phrase@ == english_entropy_phrase(entropy@),
{
    let n = entropy.len();
    if n == 16 || n == 20 || n == 24 || n == 28 || n == 32 {
        entropy_phrase(entropy.as_slice())
    } else {
        None
    }
}

/// The 64-byte seed of the mnemonic `mnemonic` under `passphrase`, which may
/// be empty. A phrase that is no mnemonic of the English word list is
/// reported as an invalid input, with the parser's message.
pub fn mc_bip39_get_seed(mnemonic: &str, passphrase: &str) -> (res: Result<Vec<u8>, LibMcError>)
    ensures
        reports(res, english_phrase_seed(mnemonic@, passphrase@)),
        res matches Ok(seed) ==> seed@.len() == SEED_LENGTH,
{
    report_invalid_mnemonic(phrase_seed(mnemonic, passphrase))
}

/// The words of the English word list that start with `prefix`, in the order
/// of the list, with a comma between each two.
pub fn mc_bip39_words_by_prefix(prefix: &str) -> (res: String)
    ensures
        res@ == joined(english_words_by_prefix(prefix@), ","@),
{
    let words = words_with_prefix(prefix);
    join_words(&words, ",")
}

} // verus!
