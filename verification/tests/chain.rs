use anita::chain::{Chain, ParseError};

#[test]
fn test_from_str() {
    let chain = Chain::try_from("solana").expect("invalid chain");
    assert_eq!(chain, Chain::Solana);

    let chain = Chain::try_from("SOLANA").expect("invalid chain");
    assert_eq!(chain, Chain::Solana);
}

#[test]
fn chain_tags_are_read_without_regard_to_case() {
    assert_eq!(Chain::from_str("sol"), Ok(Chain::Solana));
    assert_eq!(Chain::from_str("Sol"), Ok(Chain::Solana));
    assert_eq!(Chain::from_str("eth"), Ok(Chain::Ethereum));
    assert_eq!(Chain::from_str("ETH"), Ok(Chain::Ethereum));
}

#[test]
fn unknown_tags_are_refused() {
    assert_eq!(Chain::from_str("ethereum"), Err(ParseError::VariantNotFound));
    assert_eq!(Chain::from_str("unknown"), Err(ParseError::VariantNotFound));
    assert_eq!(Chain::from_str(""), Err(ParseError::VariantNotFound));
    assert_eq!(Chain::from_str("solana "), Err(ParseError::VariantNotFound));
}

#[test]
fn a_chain_is_written_as_its_tag() {
    assert_eq!(Chain::Solana.to_string(), "solana");
    assert_eq!(Chain::Ethereum.to_string(), "eth");
    assert_eq!(Chain::from_str(&Chain::Solana.to_string()), Ok(Chain::Solana));
    assert_eq!(Chain::from_str(&Chain::Ethereum.to_string()), Ok(Chain::Ethereum));
}
