//! A keypair together with the chain it was asked for.

use vstd::prelude::*;
use crate::chain::Chain;
use crate::error::DatabaseError;
use crate::keypair::{material_of, recovered_from_text, KeypairStrategy, Keypairs};
use crate::solana::SolanaKeyPair;

verus! {

/// A context for generating and signing keypairs.
pub struct KeypairContext {
    pub keypair: SolanaKeyPair,
    pub chain: Chain,
}

impl KeypairContext {
    /// A new random keypair for a chain. Solana's strategy is the only one,
    /// and every chain is served by it.
    pub fn create_keypair(chain: Chain) -> (r: SolanaKeyPair)
        ensures
            SolanaKeyPair::accepts(r.key_bytes()),
    {
        match chain {
            Chain::Solana => SolanaKeyPair::new(),
            _ => SolanaKeyPair::new(),
        }
    }

    /// A context with a new random keypair.
    pub fn new(chain: Chain) -> (r: Self)
        ensures
            r.chain == chain,
            SolanaKeyPair::accepts(r.keypair.key_bytes()),
    {
        Self::from_chain(chain)
    }

    /// Create a new keypair context.
    pub fn from_chain(chain: Chain) -> (r: Self)
        ensures
            r.chain == chain,
            SolanaKeyPair::accepts(r.keypair.key_bytes()),
    {
        let keypair = Self::create_keypair(chain);
        KeypairContext { keypair, chain }
    }

    /// A context with the keypair that a secret string writes down.
    pub fn from_secret(chain: Chain, secret: &str) -> (r: Result<Self, DatabaseError>)
        ensures
            match recovered_from_text::<SolanaKeyPair>(secret@) {
                Some(bytes) => r matches Ok(c) && c.chain == chain && c.keypair.key_bytes()
                    == bytes,
                None => r matches Err(DatabaseError::SecretError(_)),
            },
    {
        let mut keypair = Self::create_keypair(chain);
        match keypair.recover_secret(secret) {
            Ok(()) => Ok(KeypairContext { keypair, chain }),
            Err(e) => Err(e),
        }
    }

    /// The chain.
    pub fn chain(&self) -> (r: Chain)
        ensures
            r == self.chain,
    {
        self.chain
    }

    /// Replaces the keypair by the one that a secret string writes down; a
    /// string that writes down none is refused and changes nothing.
    pub fn recover_keypair(&mut self, secret: &str) -> (r: Result<(), DatabaseError>)
        ensures
            final(self).chain == old(self).chain,
            match recovered_from_text::<SolanaKeyPair>(secret@) {
                Some(bytes) => r is Ok && final(self).keypair.key_bytes() == bytes,
                None => r matches Err(DatabaseError::SecretError(_)) && final(self).keypair.key_bytes() == old(self).keypair.key_bytes(),
            },
    {
        self.keypair.recover_secret(secret)
    }

    /// The keypair.
    pub fn keypair(&self) -> (r: &SolanaKeyPair)
        ensures
            *r == self.keypair,
    {
        &self.keypair
    }

    /// The keypair that is held, written out.
    pub fn material(&self) -> (r: Keypairs)
        ensures
            r@ == material_of::<SolanaKeyPair>(self.chain, self.keypair.key_bytes()),
    {
        Keypairs {
            chain: self.chain,
            secret: self.keypair.secret(),
            pubkey: self.keypair.pubkey(),
            address: self.keypair.address(),
        }
    }

    /// A new random keypair of the context's chain, written out. The keypair
    /// that the context holds stays as it is.
    pub fn generate_keypair(&self) -> (r: Keypairs)
        ensures
            exists|bytes: Seq<u8>|
                SolanaKeyPair::accepts(bytes) && r@ == #[trigger] material_of::<SolanaKeyPair>(
                    self.chain,
                    bytes,
                ),
    {
        let fresh = KeypairContext::from_chain(self.chain);
        fresh.material()
    }

    /// Signs a message with the keypair that `secret` holds. The context's own
    /// keypair takes no part and stays as it is.
    pub fn sign(&self, secret: &[u8], message: &[u8]) -> (r: Result<String, DatabaseError>)
        ensures
            SolanaKeyPair::accepts(secret@) ==> (r matches Ok(signature) && signature@
                == SolanaKeyPair::signature_text(secret@, message@)),
            !SolanaKeyPair::accepts(secret@) ==> r matches Err(DatabaseError::SecretError(_)),
    {
        let mut keypair = Self::create_keypair(self.chain);
        match keypair.recover_from_bytes(secret) {
            Ok(()) => keypair.sign(message),
            Err(e) => Err(e),
        }
    }
}

} // verus!
