use anita::chain::Chain;
use anita::context::KeypairContext;
use anita::error::ErrorKind;
use anita::keypair::KeypairStrategy;
use anita::solana::SolanaKeyPair;
use solana_sdk::signature::{Keypair, Signature, Signer};
use std::str::FromStr;

const SECRET: &str =
    "P1DBNEizrAPgZsxwoECah4n2bDwZxtnkNZxafGmYLkD7Ra7US7DSb3Wh5dcmjzqBGS93sUFridh8Dg28m4CqVY6";
const PUBKEY: &str = "29BfrTzyu9ZCVnC5pdMcnhUecwk2WDYyPshLmBkSDNyQ";
const SIGNATURE_OF_HELLO: &str =
    "2nF9qYn3XDgdyTntcdvsuTC7BrS5JT94dtH7XomS6NKktq3ND2ZEiZnaH6UkiycXh5KdwxUX8jUYLboB1fbyVwDT";

const OTHER_SECRET: &str =
    "3aTV1HmAmmiB4v1BDov2XuQzvPrB9Kvom3pkwW97pZtqi5kv8cysqvhfJv9x8wH1VG49jvVQcNFz7Gmc11GjaJxh";
const OTHER_PUBKEY: &str = "A1SZV99CFfZWhp5YvycG3uPKHCfwZx2hW5vCTPVcgJiu";
const OTHER_SIGNATURE_OF_HELLO: &str =
    "MddanSyRoZgEWyFYN6SxexwhFyd9fZ1QanYtxeQkR4AHkHvQCvWvjqpXRSPqX5aPpkhoZesjmQ5fSGFfUJWy6wi";
const OTHER_BYTES: [u8; 64] = [
    128, 226, 189, 48, 92, 69, 111, 100, 131, 236, 203, 5, 70, 195, 11, 178, 157, 205, 122, 16, 86,
    247, 151, 239, 239, 41, 23, 36, 171, 107, 0, 8, 133, 214, 21, 78, 13, 245, 82, 184, 215, 89, 71,
    181, 171, 173, 180, 194, 210, 169, 98, 135, 49, 51, 32, 44, 121, 179, 212, 140, 19, 105, 75, 42,
];

#[test]
fn test_keypair_context() {
    let context = KeypairContext::from_chain(Chain::Solana);
    let keypair = context.keypair();
    assert_eq!(keypair.chain(), Chain::Solana);
}

#[test]
fn test_keypair_context_sign() {
    // The key is a fixed one: the base58 text of a signature has 88 characters
    // for most keys and 87 for the others.
    let mut context = KeypairContext::from_chain(Chain::Solana);
    context.recover_keypair(SECRET).unwrap();
    let keypair = context.keypair();
    let message = b"hello";
    let signature = keypair.sign(message).unwrap();
    assert_eq!(signature.len(), 88);
}

#[test]
fn test_keypair_context_recover_keypair() {
    let keypair = Keypair::new();
    let solana_kp = SolanaKeyPair::from_secret(keypair.to_base58_string().as_str()).unwrap();

    {
        let mut context = KeypairContext::from_chain(Chain::Solana);
        assert_ne!(context.keypair.secret(), solana_kp.secret());

        context.keypair.recover_from_bytes(keypair.to_bytes().as_slice()).unwrap();

        assert_eq!(context.keypair().secret(), solana_kp.secret());
        assert_eq!(context.keypair().secret(), keypair.to_base58_string());
    }

    {
        let mut context = KeypairContext::from_chain(Chain::Solana);
        assert_ne!(context.keypair().secret(), solana_kp.secret());

        context.recover_keypair(keypair.to_base58_string().as_str()).unwrap();

        assert_eq!(context.keypair().secret(), solana_kp.secret());
        assert_eq!(context.keypair().secret(), keypair.to_base58_string());
    }
}

#[test]
fn test_keypair_context_from_secret() {
    let keypair = Keypair::new();
    let solana_kp = SolanaKeyPair::from_secret(keypair.to_base58_string().as_str()).unwrap();
    let context =
        KeypairContext::from_secret(Chain::Solana, keypair.to_base58_string().as_str()).unwrap();
    assert_eq!(context.keypair().secret(), solana_kp.secret());
    assert_eq!(context.keypair().secret(), keypair.to_base58_string());

    let context =
        KeypairContext::from_secret(Chain::Solana, solana_kp.secret().as_str()).unwrap();
    assert_eq!(context.keypair().secret(), solana_kp.secret());
    assert_eq!(context.keypair().secret(), keypair.to_base58_string());

    let mut context = KeypairContext::from_chain(Chain::Solana);
    assert_ne!(context.keypair.secret(), solana_kp.secret());

    context.keypair.recover_from_bytes(keypair.to_bytes().as_slice()).unwrap();

    assert_eq!(context.keypair().secret(), solana_kp.secret());
    assert_eq!(context.keypair().secret(), keypair.to_base58_string());
}

#[test]
fn solana_test_generator() {
    let mut strategy = Box::new(SolanaKeyPair::new());
    let secret: String = strategy.secret();
    let pairs = Keypair::from_base58_string(secret.as_str());

    strategy.recover_from_bytes(pairs.to_bytes().as_slice()).unwrap();

    assert!(pairs.to_base58_string().eq_ignore_ascii_case(strategy.secret().as_str()));
    assert!(pairs.pubkey().to_string().eq_ignore_ascii_case(strategy.pubkey().as_str()));
    assert!(pairs.pubkey().to_string().eq_ignore_ascii_case(strategy.address().as_str()));
}

#[test]
fn a_known_secret_gives_its_known_public_key_and_address() {
    let keypair = SolanaKeyPair::from_secret(SECRET).unwrap();
    assert_eq!(keypair.secret(), SECRET);
    assert_eq!(keypair.pubkey(), PUBKEY);
    assert_eq!(keypair.address(), PUBKEY);
    assert_eq!(keypair.chain(), Chain::Solana);

    let other = SolanaKeyPair::from_secret(OTHER_SECRET).unwrap();
    assert_eq!(other.pubkey(), OTHER_PUBKEY);
    assert_eq!(other.to_vec(), OTHER_BYTES.to_vec());
}

#[test]
fn a_known_key_gives_its_known_signature() {
    let keypair = SolanaKeyPair::from_secret(SECRET).unwrap();
    assert_eq!(keypair.sign(b"hello").unwrap(), SIGNATURE_OF_HELLO);
    // Signing is a function of key and message.
    assert_eq!(keypair.sign(b"hello").unwrap(), SIGNATURE_OF_HELLO);
    assert_ne!(keypair.sign(b"hello!").unwrap(), SIGNATURE_OF_HELLO);
}

#[test]
fn a_signature_may_have_87_characters() {
    let keypair = SolanaKeyPair::from_secret(OTHER_SECRET).unwrap();
    let signature = keypair.sign(b"hello").unwrap();
    assert_eq!(signature, OTHER_SIGNATURE_OF_HELLO);
    assert_eq!(signature.len(), 87);
}

#[test]
fn a_signature_is_64_bytes_in_base58_and_verifies_against_the_public_key() {
    for secret in [SECRET, OTHER_SECRET] {
        let keypair = SolanaKeyPair::from_secret(secret).unwrap();
        let signature = keypair.sign(b"hello").unwrap();
        let bytes = solana_sdk::bs58::decode(signature.as_str()).into_vec().unwrap();
        assert_eq!(bytes.len(), 64);
        let pubkey = solana_sdk::bs58::decode(keypair.pubkey()).into_vec().unwrap();
        assert_eq!(pubkey.len(), 32);
        let signature = Signature::from_str(signature.as_str()).unwrap();
        assert!(signature.verify(pubkey.as_slice(), b"hello"));
        assert!(!signature.verify(pubkey.as_slice(), b"hullo"));
    }
}

#[test]
fn a_fresh_key_signs_and_the_signature_verifies() {
    let context = KeypairContext::from_chain(Chain::Solana);
    let signature = context.keypair().sign(b"hello").unwrap();
    assert!(signature.len() == 88 || signature.len() == 87);
    let signature = Signature::from_str(signature.as_str()).unwrap();
    let pubkey = solana_sdk::bs58::decode(context.keypair().pubkey()).into_vec().unwrap();
    assert!(signature.verify(pubkey.as_slice(), b"hello"));
}

#[test]
fn the_public_key_is_the_second_half_of_the_bytes() {
    let keypair = SolanaKeyPair::new();
    let bytes = keypair.to_vec();
    assert_eq!(bytes.len(), 64);
    assert_eq!(keypair.pubkey(), solana_sdk::bs58::encode(&bytes[32..]).into_string());
    assert_eq!(keypair.secret(), solana_sdk::bs58::encode(&bytes).into_string());
    assert_eq!(keypair.address(), keypair.pubkey());
}

#[test]
fn bytes_that_are_no_keypair_are_refused_and_change_nothing() {
    let mut keypair = SolanaKeyPair::from_secret(SECRET).unwrap();

    let err = keypair.recover_from_bytes(&OTHER_BYTES[..63]).err().unwrap();
    assert_eq!(err.kind(), ErrorKind::Secret);
    assert_eq!(keypair.secret(), SECRET);

    let err = keypair.recover_from_bytes(&[0u8; 64]).err().unwrap();
    assert_eq!(err.kind(), ErrorKind::Secret);
    assert_eq!(keypair.secret(), SECRET);

    // The public half of one key behind the secret half of another.
    let mut mixed = OTHER_BYTES;
    let own = keypair.to_vec();
    mixed[32..].copy_from_slice(&own[32..]);
    let err = keypair.recover_from_bytes(&mixed).err().unwrap();
    assert_eq!(err.kind(), ErrorKind::Secret);
    assert_eq!(keypair.secret(), SECRET);

    let mut long = OTHER_BYTES.to_vec();
    long.push(0);
    assert!(keypair.recover_from_bytes(&long).is_err());
    assert!(keypair.recover_from_bytes(&[]).is_err());
    assert_eq!(keypair.secret(), SECRET);

    keypair.recover_from_bytes(&OTHER_BYTES).unwrap();
    assert_eq!(keypair.secret(), OTHER_SECRET);
}

#[test]
fn a_malformed_secret_is_refused_and_changes_nothing() {
    // `0`, `O`, `I` and `l` are not in the alphabet.
    assert_eq!(SolanaKeyPair::from_secret("0OIl").err().unwrap().kind(), ErrorKind::Secret);
    assert_eq!(SolanaKeyPair::from_secret("").err().unwrap().kind(), ErrorKind::Secret);
    // Base58, but of 32 bytes only.
    assert_eq!(SolanaKeyPair::from_secret(PUBKEY).err().unwrap().kind(), ErrorKind::Secret);
    assert_eq!(SolanaKeyPair::from_secret("clé").err().unwrap().kind(), ErrorKind::Secret);

    let mut context = KeypairContext::from_secret(Chain::Solana, SECRET).unwrap();
    let err = context.recover_keypair("not a secret").err().unwrap();
    assert_eq!(err.kind(), ErrorKind::Secret);
    assert_eq!(context.keypair().secret(), SECRET);
    assert_eq!(context.chain(), Chain::Solana);

    assert!(KeypairContext::from_secret(Chain::Solana, "not a secret").is_err());
}

#[test]
fn generate_replaces_the_keypair() {
    let mut keypair = SolanaKeyPair::from_secret(SECRET).unwrap();
    keypair.generate();
    assert_ne!(keypair.secret(), SECRET);
    let again = SolanaKeyPair::from_secret(keypair.secret().as_str()).unwrap();
    assert_eq!(again.to_vec(), keypair.to_vec());
}

#[test]
fn every_chain_is_served_by_the_solana_strategy() {
    for chain in [Chain::Solana, Chain::Ethereum, Chain::Unknown] {
        let context = KeypairContext::new(chain);
        assert_eq!(context.chain(), chain);
        assert_eq!(context.chain, chain);
        assert_eq!(context.keypair().chain(), Chain::Solana);
        assert_eq!(KeypairContext::create_keypair(chain).chain(), Chain::Solana);
    }
}

#[test]
fn the_context_signs_with_the_secret_that_it_is_given() {
    let context = KeypairContext::from_chain(Chain::Solana);
    let own = context.keypair().secret();
    let signature = context.sign(&OTHER_BYTES, b"hello").unwrap();
    assert_eq!(signature, OTHER_SIGNATURE_OF_HELLO);
    assert_eq!(context.keypair().secret(), own);

    let err = context.sign(&OTHER_BYTES[..10], b"hello").err().unwrap();
    assert_eq!(err.kind(), ErrorKind::Secret);
}

#[test]
fn material_is_what_the_keypair_writes_out() {
    let context = KeypairContext::from_secret(Chain::Solana, SECRET).unwrap();
    let material = context.material();
    assert_eq!(material.chain, Chain::Solana);
    assert_eq!(material.secret, SECRET);
    assert_eq!(material.pubkey, PUBKEY);
    assert_eq!(material.address, PUBKEY);

    let fresh = context.generate_keypair();
    assert_eq!(fresh.chain, Chain::Solana);
    assert_ne!(fresh.secret, SECRET);
    let recovered = SolanaKeyPair::from_secret(fresh.secret.as_str()).unwrap();
    assert_eq!(recovered.pubkey(), fresh.pubkey);
    assert_eq!(recovered.address(), fresh.address);
    assert_eq!(context.keypair().secret(), SECRET);
}
