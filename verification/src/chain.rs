//! The chains for which keys are kept, and their textual tags.

use vstd::prelude::*;
use crate::text::{ascii_lower, to_ascii_lowercase};

verus! {

/// The blockchain a key belongs to.
#[derive(Clone, Copy, Debug, PartialEq, Eq, Structural)]
pub enum Chain {
    /// Solana: ed25519 keys, base58 addresses.
    Solana,
    /// Ethereum.
    Ethereum,
    /// A chain that has no tag and cannot be written or parsed.
    Unknown,
}

/// Why a tag could not be read as a chain.
#[derive(Clone, Copy, Debug, PartialEq, Eq, Structural)]
pub enum ParseError {
    /// No chain is written that way.
    VariantNotFound,
}

/// The chain that a tag denotes, if any. Tags are matched without regard to
/// ASCII case: `solana` and `sol` for Solana, `eth` for Ethereum.
pub open spec fn parse_chain(tag: Seq<char>) -> Option<Chain> {
    let t = ascii_lower(tag);
    if t == "solana"@ || t == "sol"@ {
        Some(Chain::Solana)
    } else if t == "eth"@ {
        Some(Chain::Ethereum)
    } else {
        None
    }
}

/// The tag under which a chain is written.
pub open spec fn chain_tag(chain: Chain) -> Seq<char>
    recommends
        chain != Chain::Unknown,
{
    match chain {
        Chain::Solana => "solana"@,
        Chain::Ethereum => "eth"@,
        Chain::Unknown => Seq::empty(),
    }
}

impl Chain {
    /// Reads a tag, ignoring ASCII case.
    pub fn from_str(tag: &str) -> (r: Result<Chain, ParseError>)
        ensures
            r is Ok <==> parse_chain(tag@) is Some,
            r matches Ok(c) ==> parse_chain(tag@) == Some(c),
            r matches Err(e) ==> e == ParseError::VariantNotFound,
    {
        let lower = to_ascii_lowercase(tag);
        let solana = "solana".to_owned();
        let sol = "sol".to_owned();
        let eth = "eth".to_owned();
        if lower == solana || lower == sol {
            Ok(Chain::Solana)
        } else if lower == eth {
            Ok(Chain::Ethereum)
        } else {
            Err(ParseError::VariantNotFound)
        }
    }

    /// Reads a tag, ignoring ASCII case.
    pub fn try_from(tag: &str) -> (r: Result<Chain, ParseError>)
        ensures
            r is Ok <==> parse_chain(tag@) is Some,
            r matches Ok(c) ==> parse_chain(tag@) == Some(c),
            r matches Err(e) ==> e == ParseError::VariantNotFound,
    {
        Chain::from_str(tag)
    }

    /// The tag of a chain that has one.
    pub fn to_string(&self) -> (r: String)
        requires
            *self != Chain::Unknown,
        ensures
            r@ == chain_tag(*self),
    {
        match self {
            Chain::Solana => "solana".to_owned(),
            _ => "eth".to_owned(),
        }
    }
}

/// A chain's own tag reads back as that chain.
pub proof fn lemma_tag_round_trip(chain: Chain)
    requires
        chain != Chain::Unknown,
    ensures
        parse_chain(chain_tag(chain)) == Some(chain),
{
    reveal_strlit("solana");
    reveal_strlit("sol");
    reveal_strlit("eth");
    let t = chain_tag(chain);
    assert(ascii_lower(t) =~= t);
    assert("eth"@.len() != "solana"@.len());
    assert("eth"@[0] != "sol"@[0]);
}

} // verus!
