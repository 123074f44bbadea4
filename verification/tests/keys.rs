use anita::chain::Chain;
use anita::error::ErrorKind;
use anita::keypair::KeypairStrategy;
use anita::keys::{Key, KeyWithSecret, NewKey};
use anita::solana::SolanaKeyPair;

const SECRET: &str =
    "P1DBNEizrAPgZsxwoECah4n2bDwZxtnkNZxafGmYLkD7Ra7US7DSb3Wh5dcmjzqBGS93sUFridh8Dg28m4CqVY6";
const PUBKEY: &str = "29BfrTzyu9ZCVnC5pdMcnhUecwk2WDYyPshLmBkSDNyQ";
const SIGNATURE_OF_HELLO: &str =
    "2nF9qYn3XDgdyTntcdvsuTC7BrS5JT94dtH7XomS6NKktq3ND2ZEiZnaH6UkiycXh5KdwxUX8jUYLboB1fbyVwDT";

fn sample_key() -> Key {
    Key::new(
        7,
        "solana".to_string(),
        vec![1, 2, 3],
        "pub".to_string(),
        "addr".to_string(),
        "ddr".to_string(),
        None,
        Some(1_700_000_000_000_000),
    )
}

#[test]
fn a_new_key_takes_the_last_four_characters_of_the_address_in_lower_case() {
    let keypair = SolanaKeyPair::from_secret(SECRET).unwrap();
    let key = NewKey::from_keypair(&keypair, None);
    assert_eq!(key.chain(), "solana");
    assert_eq!(key.pubkey(), PUBKEY);
    assert_eq!(key.address(), PUBKEY);
    assert_eq!(key.suffix(), "dnyq");
    assert_eq!(key.used_at(), None);
    assert_eq!(key.get_secret(), keypair.to_vec());
}

#[test]
fn a_given_suffix_is_stored_in_lower_case() {
    let keypair = SolanaKeyPair::from_secret(SECRET).unwrap();
    let key = NewKey::from_keypair(&keypair, Some("NyQ".to_string()));
    assert_eq!(key.suffix(), "nyq");
    let key = NewKey::from_keypair(&keypair, Some("ÀB-c1".to_string()));
    assert_eq!(key.suffix(), "Àb-c1");
    let key = NewKey::from_keypair(&keypair, Some(String::new()));
    assert_eq!(key.suffix(), "");
    let key = NewKey::checked_from_keypair(&keypair, Some("Q".to_string())).unwrap();
    assert_eq!(key.suffix(), "q");
    let key = NewKey::checked_from_keypair(&keypair, None).unwrap();
    assert_eq!(key.suffix(), "dnyq");
}

#[test]
fn the_secret_and_the_claim_time_of_a_new_key_can_be_set() {
    let keypair = SolanaKeyPair::from_secret(SECRET).unwrap();
    let mut key = NewKey::from_keypair(&keypair, None);
    key.set_secret(&[9, 8, 7]);
    assert_eq!(key.get_secret(), vec![9, 8, 7]);
    key.set_used_at(Some(42));
    assert_eq!(key.used_at(), Some(42));
    assert_eq!(key.pubkey(), PUBKEY);
    assert_eq!(key.suffix(), "dnyq");
    let copy = key.clone();
    assert_eq!(copy.get_secret(), vec![9, 8, 7]);
    assert_eq!(copy.used_at(), Some(42));

    let row = key.stored(3, 1000);
    assert_eq!(row.id(), 3);
    assert_eq!(row.chain(), "solana");
    assert_eq!(row.pubkey(), PUBKEY);
    assert_eq!(row.address(), PUBKEY);
    assert_eq!(row.suffix(), "dnyq");
    assert_eq!(row.used_at(), Some(42));
    assert_eq!(row.created_at(), Some(1000));
}

#[test]
fn a_key_shows_everything_but_its_secret() {
    let key = sample_key();
    let info = key.info();
    assert_eq!(info.id, 7);
    assert_eq!(info.chain, "solana");
    assert_eq!(info.pubkey, "pub");
    assert_eq!(info.address, "addr");
    assert_eq!(info.suffix, "ddr");
    assert_eq!(info.used_at, None);
    assert_eq!(info.created_at, Some(1_700_000_000_000_000));

    // What is shown, written out in full, holds no byte of the secret.
    let written = format!("{:?}", info);
    assert!(!written.contains("secret"));
    assert!(!written.contains("[1, 2, 3]"));

    // Keys that differ in the secret alone are shown alike.
    let other = Key::new(
        7,
        "solana".to_string(),
        vec![4, 5, 6, 7],
        "pub".to_string(),
        "addr".to_string(),
        "ddr".to_string(),
        None,
        Some(1_700_000_000_000_000),
    );
    assert_eq!(format!("{:?}", other.info()), written);
}

#[test]
fn a_claimed_key_differs_in_the_claim_time_alone() {
    let key = sample_key();
    let claimed = key.claimed(55);
    assert_eq!(claimed.used_at(), Some(55));
    assert_eq!(claimed.id(), key.id());
    assert_eq!(claimed.chain(), key.chain());
    assert_eq!(claimed.pubkey(), key.pubkey());
    assert_eq!(claimed.address(), key.address());
    assert_eq!(claimed.suffix(), key.suffix());
    assert_eq!(claimed.created_at(), key.created_at());
    assert_eq!(key.used_at(), None);
    let copy = claimed.clone();
    assert_eq!(copy.used_at(), Some(55));
    assert_eq!(copy.id(), 7);
}

#[test]
fn a_key_is_matched_by_chain_and_suffix_while_it_is_unclaimed() {
    let key = sample_key();
    assert!(key.matches_unclaimed(&"solana".to_string(), &"ddr".to_string()));
    assert!(!key.matches_unclaimed(&"solana".to_string(), &"DDR".to_string()));
    assert!(!key.matches_unclaimed(&"solana".to_string(), &"dr".to_string()));
    assert!(!key.matches_unclaimed(&"eth".to_string(), &"ddr".to_string()));
    assert!(!key.claimed(1).matches_unclaimed(&"solana".to_string(), &"ddr".to_string()));

    assert!(key.matches_pubkey(&"solana".to_string(), &"pub".to_string()));
    assert!(key.claimed(1).matches_pubkey(&"solana".to_string(), &"pub".to_string()));
    assert!(!key.matches_pubkey(&"solana".to_string(), &"Pub".to_string()));
    assert!(!key.matches_pubkey(&"eth".to_string(), &"pub".to_string()));
}

#[test]
fn a_key_with_its_secret_signs_with_that_secret() {
    let keypair = SolanaKeyPair::from_secret(SECRET).unwrap();
    let mut key = KeyWithSecret::new(sample_key(), vec![1, 2, 3]);
    assert_eq!(key.key().id(), 7);
    assert_eq!(key.secret(), vec![1, 2, 3]);

    // Three bytes are no keypair.
    let err = key.sign(SolanaKeyPair::new(), b"hello").err().unwrap();
    assert_eq!(err.kind(), ErrorKind::Secret);

    key.set_secret(keypair.to_vec().as_slice());
    assert_eq!(key.secret(), keypair.to_vec());
    assert_eq!(key.key().pubkey(), "pub");
    // The strategy's own keypair takes no part.
    assert_eq!(key.sign(SolanaKeyPair::new(), b"hello").unwrap(), SIGNATURE_OF_HELLO);
    assert_eq!(keypair.chain(), Chain::Solana);
}
