//! A custodial vault for vanity blockchain keypairs.
//!
//! The library searches for keypairs whose address ends with a chosen suffix
//! ([`keygen`]), seals their secrets with AES-256-GCM ([`encryption`]), keeps
//! them in a table from which each key is handed out at most once
//! ([`store`], [`handlers`], [`claim`], [`database`]), and signs messages on
//! behalf of vaulted keys ([`service`]). Keypairs are made, recovered and
//! used through a strategy for each chain ([`keypair`], [`solana`],
//! [`context`]).
//!
//! Every function is verified against its contract. Calls into other crates
//! are made in small functions whose contracts are taken on trust; their
//! comments name the function that is called and say what is claimed of it.

pub mod chain;
pub mod claim;
pub mod commands;
pub mod context;
pub mod database;
pub mod encoding;
pub mod encryption;
pub mod error;
pub mod handlers;
pub mod keygen;
pub mod keypair;
pub mod keys;
pub mod service;
pub mod solana;
pub mod store;
pub mod text;
