//! The Solana strategy: ed25519 keypairs of 64 bytes, written in base58.

use vstd::prelude::*;
use solana_sdk::signature::{Keypair, Signer};
use crate::chain::Chain;
use crate::encoding::{base58, base58_decoded, bs58_decode, bs58_encode};
use crate::error::DatabaseError;
use crate::keypair::KeypairStrategy;

verus! {

/// Bytes in a keypair: the 32-byte secret key, then the 32-byte public key.
pub const KEYPAIR_LEN: usize = 64;

/// Bytes in a signature.
pub const SIGNATURE_LEN: usize = 64;

/// Whether `Keypair::from_bytes` takes `bytes` for a keypair: 64 bytes whose
/// second half is the public key of the first.
pub uninterp spec fn keypair_accepted(bytes: Seq<u8>) -> bool;

/// The 64-byte ed25519 signature of the keypair `keypair` on `message`, as
/// `Signer::sign_message` computes it.
pub uninterp spec fn ed25519_signature(keypair: Seq<u8>, message: Seq<u8>) -> Seq<u8>;

/// The public half of a keypair.
pub open spec fn public_half(bytes: Seq<u8>) -> Seq<u8> {
    bytes.subrange(32, 64)
}

/// The keypair that a base58 secret string writes down, where it writes one.
pub open spec fn keypair_of_secret(text: Seq<char>) -> Option<Seq<u8>> {
    match base58_decoded(text) {
        Some(bytes) => if keypair_accepted(bytes) {
            Some(bytes)
        } else {
            None
        },
        None => None,
    }
}

/// `Keypair::new`, written out with `to_bytes`: a random keypair, which
/// `Keypair::from_bytes` accepts.
#[verifier::external_body]
fn keypair_new() -> (r: Vec<u8>)
    ensures
        keypair_accepted(r@),
        r@.len() == KEYPAIR_LEN,
{
    Keypair::new().to_bytes().to_vec()
}

/// `Keypair::from_bytes`: accepts a keypair, which `to_bytes` writes out as
/// the same 64 bytes, and refuses everything else with a message.
#[verifier::external_body]
fn keypair_from_bytes(bytes: &[u8]) -> (r: Result<Vec<u8>, String>)
    ensures
        r is Ok <==> keypair_accepted(bytes@),
        r matches Ok(kept) ==> kept@ == bytes@ && bytes@.len() == KEYPAIR_LEN,
{
    Keypair::from_bytes(bytes).map(|k| k.to_bytes().to_vec()).map_err(|e| e.to_string())
}

/// `Keypair::to_base58_string`: the base58 text of the 64 bytes.
#[verifier::external_body]
fn keypair_to_base58(bytes: &[u8]) -> (r: String)
    requires
        keypair_accepted(bytes@),
    ensures
        r@ == base58(bytes@),
{
    Keypair::from_bytes(bytes).unwrap().to_base58_string()
}

/// `Signer::pubkey` of a keypair, written with `Pubkey`'s `to_string`: the
/// base58 text of the public half.
#[verifier::external_body]
fn keypair_pubkey(bytes: &[u8]) -> (r: String)
    requires
        keypair_accepted(bytes@),
    ensures
        r@ == base58(public_half(bytes@)),
{
    Keypair::from_bytes(bytes).unwrap().pubkey().to_string()
}

/// `Signer::sign_message` of a keypair: the 64 bytes of the signature.
#[verifier::external_body]
fn keypair_sign(bytes: &[u8], message: &[u8]) -> (r: Vec<u8>)
    requires
        keypair_accepted(bytes@),
    ensures
        r@ == ed25519_signature(bytes@, message@),
        r@.len() == SIGNATURE_LEN,
{
    Keypair::from_bytes(bytes).unwrap().sign_message(message).as_ref().to_vec()
}

/// A Solana keypair.
pub struct SolanaKeyPair {
    bytes: Vec<u8>,
}

impl SolanaKeyPair {
    #[verifier::type_invariant]
    spec fn inv(self) -> bool {
        keypair_accepted(self.bytes@) && self.bytes@.len() == KEYPAIR_LEN
    }

    /// A new random keypair.
    pub fn new() -> (r: Self)
        ensures
            keypair_accepted(r.key_bytes()),
    {
        SolanaKeyPair { bytes: keypair_new() }
    }

    /// The keypair that a base58 secret string writes down.
    pub fn from_secret(s: &str) -> (r: Result<Self, DatabaseError>)
        ensures
            match keypair_of_secret(s@) {
                Some(bytes) => r matches Ok(k) && k.key_bytes() == bytes,
                None => r matches Err(DatabaseError::SecretError(_)),
            },
    {
        match bs58_decode(s) {
            Some(bytes) => match keypair_from_bytes(bytes.as_slice()) {
                Ok(kept) => Ok(SolanaKeyPair { bytes: kept }),
                Err(message) => Err(DatabaseError::SecretError(message)),
            },
            None => Err(DatabaseError::SecretError("the secret is not written in base58".to_owned())),
        }
    }
}

impl KeypairStrategy for SolanaKeyPair {
    closed spec fn key_bytes(&self) -> Seq<u8> {
        self.bytes@
    }

    open spec fn chain_of() -> Chain {
        Chain::Solana
    }

    open spec fn accepts(bytes: Seq<u8>) -> bool {
        keypair_accepted(bytes)
    }

    open spec fn secret_text(bytes: Seq<u8>) -> Seq<char> {
        base58(bytes)
    }

    open spec fn secret_bytes(text: Seq<char>) -> Option<Seq<u8>> {
        base58_decoded(text)
    }

    open spec fn public_text(bytes: Seq<u8>) -> Seq<char> {
        base58(public_half(bytes))
    }

    open spec fn address_text(bytes: Seq<u8>) -> Seq<char> {
        base58(public_half(bytes))
    }

    open spec fn signature_text(bytes: Seq<u8>, message: Seq<u8>) -> Seq<char> {
        base58(ed25519_signature(bytes, message))
    }

    fn chain(&self) -> (r: Chain) {
        Chain::Solana
    }

    fn generate(&mut self) {
        *self = SolanaKeyPair::new();
    }

    fn recover_secret(&mut self, secret: &str) -> (r: Result<(), DatabaseError>) {
        match SolanaKeyPair::from_secret(secret) {
            Ok(keypair) => {
                *self = keypair;
                Ok(())
            },
            Err(e) => Err(e),
        }
    }

    fn recover_from_bytes(&mut self, bytes: &[u8]) -> (r: Result<(), DatabaseError>) {
        match keypair_from_bytes(bytes) {
            Ok(kept) => {
                *self = SolanaKeyPair { bytes: kept };
                Ok(())
            },
            Err(message) => Err(DatabaseError::SecretError(message)),
        }
    }

    fn to_vec(&self) -> (r: Vec<u8>) {
        proof {
            use_type_invariant(self);
        }
        self.bytes.clone()
    }

    fn secret(&self) -> (r: String) {
        proof {
            use_type_invariant(self);
        }
        keypair_to_base58(self.bytes.as_slice())
    }

    fn pubkey(&self) -> (r: String) {
        proof {
            use_type_invariant(self);
        }
        keypair_pubkey(self.bytes.as_slice())
    }

    fn address(&self) -> (r: String) {
        self.pubkey()
    }

    fn sign(&self, message: &[u8]) -> (r: Result<String, DatabaseError>)
        ensures
            ed25519_signature(self.key_bytes(), message@).len() == SIGNATURE_LEN,
    {
        proof {
            use_type_invariant(self);
        }
        let signature = keypair_sign(self.bytes.as_slice(), message);
        Ok(bs58_encode(signature.as_slice()))
    }
}

} // verus!
