//! The `key` command: claim a key, or search for a vanity keypair and vault it.

use vstd::prelude::*;
use crate::chain::Chain;
use crate::context::KeypairContext;
use crate::database::{claim_post, is_store_failure, utc_now, KeyTrait};
use crate::encryption::{seed_of, to_seed};
use crate::error::DatabaseError;
use crate::keygen::{is_vanity, keygen};
use crate::keypair::{material_of, KeypairStrategy, Keypairs, KeypairsView};
use crate::keys::{time_view, Key, KeyView};
use crate::service::{vault_keypair, vault_post};
use crate::solana::SolanaKeyPair;

verus! {

/// What the `key` command is asked to do.
#[derive(Debug, Clone, Copy)]
pub enum Subcommands {
    /// Get a keypair: claim a vaulted key by the suffix.
    Get,
    /// New a keypair: search for one with the suffix and vault it unclaimed.
    New {
        /// Number of threads to use.
        count: u8,
    },
    /// Vanity keypairs: search for one with the suffix and vault it as
    /// claimed already. The program repeats this for as long as it runs.
    Vanity {
        /// Number of threads to use.
        count: u8,
    },
}

/// The `key` command with its arguments.
#[derive(Debug)]
pub struct Command {
    /// The database to save the keys.
    pub database_url: String,
    /// The database seed, in hexadecimal.
    pub seed: Option<String>,
    /// The chain to use.
    pub chain: Chain,
    /// The suffix to search.
    pub suffix: String,
    /// What to do.
    pub command: Subcommands,
}

/// What one run of the `key` command came to.
pub enum Outcome {
    /// A claim was made; it returned this key, or none was left.
    Claimed(Option<Key>),
    /// A keypair was found and vaulted as this row.
    Vaulted { material: Keypairs, row: Key },
    /// The search ended without a keypair.
    SearchFailed,
}

/// A keypair of the chain was found whose address ends with the suffix, and
/// it was vaulted under that suffix with the result `stored`; `material`,
/// where it is given, is that keypair written out.
pub open spec fn find_vaulted(
    chain: Chain,
    suffix: Seq<char>,
    used_at: Option<int>,
    before: Seq<KeyView>,
    seed: Option<Seq<u8>>,
    reliable: bool,
    after: Seq<KeyView>,
    material: Option<KeypairsView>,
    stored: Result<Key, DatabaseError>,
) -> bool {
    exists|bytes: Seq<u8>|
        {
            &&& SolanaKeyPair::accepts(bytes)
            &&& is_vanity(bytes, suffix)
            &&& material matches Some(m) ==> m == material_of::<SolanaKeyPair>(chain, bytes)
            &&& #[trigger] vault_post::<SolanaKeyPair>(
                bytes,
                Some(suffix),
                used_at,
                before,
                seed,
                reliable,
                after,
                stored,
            )
        }
}

/// What a search followed by the vaulting of its find owes, for a claim time
/// `used_at` that the row is stored with. Where the search ends without a
/// keypair, the vault stays as it is.
pub open spec fn found_and_vaulted(
    chain: Chain,
    suffix: Seq<char>,
    used_at: Option<int>,
    before: Seq<KeyView>,
    seed: Option<Seq<u8>>,
    reliable: bool,
    after: Seq<KeyView>,
    r: Result<Outcome, DatabaseError>,
) -> bool {
    match r {
        Ok(outcome) => match outcome {
            Outcome::SearchFailed => after == before,
            Outcome::Vaulted { material, row } => find_vaulted(
                chain,
                suffix,
                used_at,
                before,
                seed,
                reliable,
                after,
                Some(material@),
                Ok(row),
            ),
            Outcome::Claimed(_) => false,
        },
        Err(e) => find_vaulted(chain, suffix, used_at, before, seed, reliable, after, None, Err(e)),
    }
}

/// What the vaulting of what a search returned owes. Without a keypair the
/// search has failed and the vault stays as it is. A keypair is vaulted under
/// the suffix, with `used_at` as its claim time: the outcome holds the keypair
/// written out and the stored row, or else the error of the vaulting.
pub open spec fn find_outcome(
    found: Option<KeypairContext>,
    suffix: Seq<char>,
    used_at: Option<int>,
    before: Seq<KeyView>,
    seed: Option<Seq<u8>>,
    reliable: bool,
    after: Seq<KeyView>,
    r: Result<Outcome, DatabaseError>,
) -> bool {
    match found {
        None => after == before && r matches Ok(Outcome::SearchFailed),
        Some(context) => match r {
            Ok(outcome) => match outcome {
                Outcome::Vaulted { material, row } => {
                    &&& material@ == material_of::<SolanaKeyPair>(
                        context.chain,
                        context.keypair.key_bytes(),
                    )
                    &&& vault_post::<SolanaKeyPair>(
                        context.keypair.key_bytes(),
                        Some(suffix),
                        used_at,
                        before,
                        seed,
                        reliable,
                        after,
                        Ok(row),
                    )
                },
                _ => false,
            },
            Err(e) => vault_post::<SolanaKeyPair>(
                context.keypair.key_bytes(),
                Some(suffix),
                used_at,
                before,
                seed,
                reliable,
                after,
                Err(e),
            ),
        },
    }
}

/// What a run of the `key` command owes, by what it was asked to do.
pub open spec fn executed(
    command: Subcommands,
    chain: Chain,
    suffix: Seq<char>,
    before: Seq<KeyView>,
    seed: Option<Seq<u8>>,
    reliable: bool,
    after: Seq<KeyView>,
    r: Result<Outcome, DatabaseError>,
) -> bool {
    match command {
        Subcommands::Get => match r {
            Ok(Outcome::Claimed(key)) => claim_post(before, chain, suffix, after, Ok(key)),
            Ok(_) => false,
            Err(e) => claim_post(before, chain, suffix, after, Err(e)) && (reliable
                ==> !is_store_failure(e)),
        },
        Subcommands::New { count } => found_and_vaulted(
            chain,
            suffix,
            None,
            before,
            seed,
            reliable,
            after,
            r,
        ),
        Subcommands::Vanity { count } => exists|now: int|
            #[trigger] found_and_vaulted(chain, suffix, Some(now), before, seed, reliable, after, r),
    }
}

impl Command {
    /// The seed that the command names, read from its hexadecimal text.
    pub fn parsed_seed(&self) -> (r: Result<Option<Vec<u8>>, DatabaseError>)
        ensures
            match self.seed {
                None => r matches Ok(None),
                Some(text) => match seed_of(text@) {
                    Some(bytes) => r matches Ok(Some(seed)) && seed@ == bytes,
                    None => r matches Err(DatabaseError::SecretError(_)),
                },
            },
    {
        match &self.seed {
            None => Ok(None),
            Some(text) => match to_seed(text.as_str()) {
                Ok(seed) => Ok(Some(seed)),
                Err(e) => Err(e),
            },
        }
    }

    /// Claims a vaulted key of the command's chain and suffix.
    pub fn get<D: KeyTrait>(&self, database: &mut D) -> (r: Result<Outcome, DatabaseError>)
        ensures
            final(database).seed() == old(database).seed(),
            executed(
                Subcommands::Get,
                self.chain,
                self.suffix@,
                old(database).rows(),
                old(database).seed(),
                D::reliable(),
                final(database).rows(),
                r,
            ),
    {
        match database.get_key_by_suffix(self.chain, self.suffix.as_str()) {
            Ok(key) => Ok(Outcome::Claimed(key)),
            Err(e) => Err(e),
        }
    }

    /// Vaults what a search returned under the command's suffix, unclaimed or
    /// as claimed at `used_at`. Without a keypair the search has failed, and
    /// nothing is vaulted.
    pub fn vault_find<D: KeyTrait>(
        &self,
        database: &mut D,
        found: Option<KeypairContext>,
        used_at: Option<i64>,
    ) -> (r: Result<Outcome, DatabaseError>)
        ensures
            final(database).seed() == old(database).seed(),
            find_outcome(
                found,
                self.suffix@,
                time_view(used_at),
                old(database).rows(),
                old(database).seed(),
                D::reliable(),
                final(database).rows(),
                r,
            ),
    {
        match found {
            Some(context) => {
                let material = context.material();
                let stored = vault_keypair(
                    database,
                    context.keypair(),
                    Some(self.suffix.clone()),
                    used_at,
                );
                match stored {
                    Ok(row) => Ok(Outcome::Vaulted { material, row }),
                    Err(e) => Err(e),
                }
            },
            None => Ok(Outcome::SearchFailed),
        }
    }

    /// Searches with `count` threads for a keypair whose address ends with the
    /// command's suffix and vaults it under that suffix, unclaimed or as
    /// claimed at `used_at`.
    pub fn find_and_vault<D: KeyTrait>(&self, database: &mut D, count: u8, used_at: Option<i64>) -> (r:
        Result<Outcome, DatabaseError>)
        ensures
            final(database).seed() == old(database).seed(),
            found_and_vaulted(
                self.chain,
                self.suffix@,
                time_view(used_at),
                old(database).rows(),
                old(database).seed(),
                D::reliable(),
                final(database).rows(),
                r,
            ),
    {
        let found = keygen(count, self.suffix.as_str(), self.chain);
        let ghost find = found;
        let r = self.vault_find(database, found, used_at);
        proof {
            if let Some(context) = find {
                let bytes = context.keypair.key_bytes();
                let stored: Result<Key, DatabaseError> = if r is Ok {
                    Ok(r->Ok_0->row)
                } else {
                    Err(r->Err_0)
                };
                assert(vault_post::<SolanaKeyPair>(
                    bytes,
                    Some(self.suffix@),
                    time_view(used_at),
                    old(database).rows(),
                    old(database).seed(),
                    D::reliable(),
                    database.rows(),
                    stored,
                ));
            }
        }
        r
    }

    /// Runs the command once against a vault.
    pub fn execute<D: KeyTrait>(&self, database: &mut D) -> (r: Result<Outcome, DatabaseError>)
        ensures
            final(database).seed() == old(database).seed(),
            executed(
                self.command,
                self.chain,
                self.suffix@,
                old(database).rows(),
                old(database).seed(),
                D::reliable(),
                final(database).rows(),
                r,
            ),
    {
        match self.command {
            Subcommands::Get => self.get(database),
            Subcommands::New { count } => self.find_and_vault(database, count, None),
            Subcommands::Vanity { count } => {
                let now = utc_now();
                let r = self.find_and_vault(database, count, Some(now));
                proof {
                    assert(found_and_vaulted(
                        self.chain,
                        self.suffix@,
                        Some(now as int),
                        old(database).rows(),
                        old(database).seed(),
                        D::reliable(),
                        database.rows(),
                        r,
                    ));
                }
                r
            },
        }
    }
}

} // verus!
