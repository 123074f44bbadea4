//! What every chain's keypair strategy can do, and the material it yields.

use vstd::prelude::*;
use crate::chain::Chain;
use crate::error::DatabaseError;

verus! {

/// A keypair of one chain: it can be drawn afresh, recovered from its secret,
/// written out, and used to sign.
///
/// The spec functions say what the chain's encodings are; the methods are
/// held to them.
pub trait KeypairStrategy: Sized {
    /// The bytes of the keypair that is held now.
    spec fn key_bytes(&self) -> Seq<u8>;

    /// The chain whose keys this strategy handles.
    spec fn chain_of() -> Chain;

    /// Whether `bytes` are a keypair of this chain.
    spec fn accepts(bytes: Seq<u8>) -> bool;

    /// The secret string that writes a keypair down.
    spec fn secret_text(bytes: Seq<u8>) -> Seq<char>;

    /// The bytes that a secret string writes down, if it writes any.
    spec fn secret_bytes(text: Seq<char>) -> Option<Seq<u8>>;

    /// The public key of a keypair, as text.
    spec fn public_text(bytes: Seq<u8>) -> Seq<char>;

    /// The address of a keypair.
    spec fn address_text(bytes: Seq<u8>) -> Seq<char>;

    /// The signature of a keypair on a message, as text.
    spec fn signature_text(bytes: Seq<u8>, message: Seq<u8>) -> Seq<char>;

    /// The chain.
    fn chain(&self) -> (r: Chain)
        ensures
            r == Self::chain_of(),
    ;

    /// Replaces the keypair by a new random one.
    fn generate(&mut self)
        ensures
            Self::accepts(final(self).key_bytes()),
    ;

    /// Replaces the keypair by the one that a secret string writes down. A
    /// string that writes down no keypair is refused and changes nothing.
    fn recover_secret(&mut self, secret: &str) -> (r: Result<(), DatabaseError>)
        ensures
            match Self::secret_bytes(secret@) {
                Some(bytes) if Self::accepts(bytes) => r is Ok && final(self).key_bytes() == bytes,
                _ => r matches Err(DatabaseError::SecretError(_)) && final(self).key_bytes()
                    == old(self).key_bytes(),
            },
    ;

    /// Replaces the keypair by the one that `bytes` are. Bytes that are no
    /// keypair are refused and change nothing.
    fn recover_from_bytes(&mut self, bytes: &[u8]) -> (r: Result<(), DatabaseError>)
        ensures
            Self::accepts(bytes@) ==> r is Ok && final(self).key_bytes() == bytes@,
            !Self::accepts(bytes@) ==> (r matches Err(DatabaseError::SecretError(_)) && final(
                self
            ).key_bytes() == old(self).key_bytes()),
    ;

    /// The keypair's bytes.
    fn to_vec(&self) -> (r: Vec<u8>)
        ensures
            r@ == self.key_bytes(),
            Self::accepts(r@),
    ;

    /// The keypair's secret string.
    fn secret(&self) -> (r: String)
        ensures
            r@ == Self::secret_text(self.key_bytes()),
    ;

    /// The public key, as text.
    fn pubkey(&self) -> (r: String)
        ensures
            r@ == Self::public_text(self.key_bytes()),
    ;

    /// The address.
    fn address(&self) -> (r: String)
        ensures
            r@ == Self::address_text(self.key_bytes()),
    ;

    /// Signs a message with the keypair that is held.
    fn sign(&self, message: &[u8]) -> (r: Result<String, DatabaseError>)
        ensures
            r matches Ok(signature) && signature@ == Self::signature_text(
                self.key_bytes(),
                message@,
            ),
    ;
}

/// The keypair that a secret string yields under a strategy: the bytes it
/// writes down, where they are a keypair of the chain.
pub open spec fn recovered_from_text<S: KeypairStrategy>(text: Seq<char>) -> Option<Seq<u8>> {
    match S::secret_bytes(text) {
        Some(bytes) => if S::accepts(bytes) {
            Some(bytes)
        } else {
            None
        },
        None => None,
    }
}

/// A keypair written out for transport: the chain, the secret string, the
/// public key and the address.
#[derive(Debug, Clone)]
pub struct Keypairs {
    pub chain: Chain,
    pub secret: String,
    pub pubkey: String,
    pub address: String,
}

/// The mathematical content of a `Keypairs`.
pub struct KeypairsView {
    pub chain: Chain,
    pub secret: Seq<char>,
    pub pubkey: Seq<char>,
    pub address: Seq<char>,
}

impl View for Keypairs {
    type V = KeypairsView;

    open spec fn view(&self) -> KeypairsView {
        KeypairsView {
            chain: self.chain,
            secret: self.secret@,
            pubkey: self.pubkey@,
            address: self.address@,
        }
    }
}

/// What a strategy writes out for the keypair `bytes` on behalf of `chain`.
pub open spec fn material_of<S: KeypairStrategy>(chain: Chain, bytes: Seq<u8>) -> KeypairsView {
    KeypairsView {
        chain,
        secret: S::secret_text(bytes),
        pubkey: S::public_text(bytes),
        address: S::address_text(bytes),
    }
}

} // verus!
