use fog_ingest::mnemonic::{
    join_words, mc_bip39_entropy_from_mnemonic, mc_bip39_entropy_to_mnemonic, mc_bip39_get_seed,
    mc_bip39_words_by_prefix, report_invalid_mnemonic, LibMcError, SEED_LENGTH,
};

const PHRASE: &str = "crop cash unable insane eight faith inflict route frame loud box vibrant";

const ENTROPY: [u8; 16] = [
    0x33, 0xE4, 0x6B, 0xB1, 0x3A, 0x74, 0x6E, 0xA4, 0x1C, 0xDD, 0xE4, 0x5C, 0x90, 0x84, 0x6A, 0x79,
];

fn hex(bytes: &[u8]) -> String {
    bytes.iter().map(|b| format!("{:02x}", b)).collect()
}

#[test]
fn entropy_of_a_phrase() {
    assert_eq!(mc_bip39_entropy_from_mnemonic(PHRASE), Ok(ENTROPY.to_vec()));
}

#[test]
fn phrase_of_an_entropy() {
    assert_eq!(mc_bip39_entropy_to_mnemonic(&ENTROPY.to_vec()), Some(PHRASE.to_string()));
}

#[test]
fn phrase_and_entropy_go_back_and_forth() {
    let entropy: Vec<u8> = (0u8..32).collect();
    let phrase = mc_bip39_entropy_to_mnemonic(&entropy).unwrap();
    assert_eq!(phrase.split(' ').count(), 24);
    assert_eq!(mc_bip39_entropy_from_mnemonic(&phrase), Ok(entropy));
}

#[test]
fn entropy_of_a_wrong_length_has_no_phrase() {
    assert_eq!(mc_bip39_entropy_to_mnemonic(&Vec::new()), None);
    assert_eq!(mc_bip39_entropy_to_mnemonic(&vec![0u8; 15]), None);
    assert_eq!(mc_bip39_entropy_to_mnemonic(&vec![0u8; 17]), None);
    assert_eq!(mc_bip39_entropy_to_mnemonic(&vec![0u8; 36]), None);
    for n in [16usize, 20, 24, 28, 32] {
        assert!(mc_bip39_entropy_to_mnemonic(&vec![0u8; n]).is_some());
    }
}

#[test]
fn an_unknown_word_is_an_invalid_input() {
    let res = mc_bip39_entropy_from_mnemonic("crop cash unable insane eight faith inflict route frame loud box zzzz");
    assert_eq!(
        res,
        Err(LibMcError::InvalidInput("Invalid mnemonic: invalid word in phrase".to_string()))
    );
}

#[test]
fn a_wrong_checksum_is_an_invalid_input() {
    let res = mc_bip39_entropy_from_mnemonic("crop cash unable insane eight faith inflict route frame loud box crop");
    assert_eq!(res, Err(LibMcError::InvalidInput("Invalid mnemonic: invalid checksum".to_string())));
}

#[test]
fn a_wrong_number_of_words_is_an_invalid_input() {
    let res = mc_bip39_get_seed("crop cash", "");
    assert_eq!(
        res,
        Err(LibMcError::InvalidInput(
            "Invalid mnemonic: invalid number of words in phrase: 2".to_string()
        ))
    );
}

#[test]
fn seed_of_a_phrase() {
    let seed = mc_bip39_get_seed(PHRASE, "password").unwrap();
    assert_eq!(seed.len(), SEED_LENGTH);
    assert_eq!(
        hex(&seed),
        "0bde96f14c35a66235478e0c16c152fcaf6301e4d9a81d3febc50879fe7e5438e6a8dd3e39bdf3ab7b12d6b44218710e17d7a2844ee9633fab0e03d9a6c8569b"
    );
}

#[test]
fn seed_depends_on_the_passphrase() {
    let plain = mc_bip39_get_seed(PHRASE, "").unwrap();
    let salted = mc_bip39_get_seed(PHRASE, "password").unwrap();
    assert_eq!(plain.len(), 64);
    assert_ne!(plain, salted);
}

#[test]
fn words_by_prefix_are_joined_with_commas() {
    assert_eq!(mc_bip39_words_by_prefix("woo"), "wood,wool");
    assert_eq!(mc_bip39_words_by_prefix("woof"), "");
    assert_eq!(mc_bip39_words_by_prefix("zoo"), "zoo");
    assert_eq!(mc_bip39_words_by_prefix("").split(',').count(), 2048);
}

#[test]
fn join_words_puts_the_separator_between() {
    let words = vec!["a".to_string(), "bc".to_string(), "".to_string(), "d".to_string()];
    assert_eq!(join_words(&words, ","), "a,bc,,d");
    assert_eq!(join_words(&words, "--"), "a--bc----d");
    assert_eq!(join_words(&Vec::new(), ","), "");
    assert_eq!(join_words(&vec!["one".to_string()], ","), "one");
}

#[test]
fn report_invalid_mnemonic_prefixes_the_message() {
    assert_eq!(report_invalid_mnemonic(Ok(vec![1, 2])), Ok(vec![1, 2]));
    assert_eq!(
        report_invalid_mnemonic(Err("bad".to_string())),
        Err(LibMcError::InvalidInput("Invalid mnemonic: bad".to_string()))
    );
}
