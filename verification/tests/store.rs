use anita::chain::Chain;
use anita::error::ErrorKind;
use anita::handlers::{
    after_select, create_key, create_keys, get_key_by_suffix, get_secret_by_id,
    get_secret_by_pubkey, ClaimStep,
};
use anita::keypair::KeypairStrategy;
use anita::keys::NewKey;
use anita::solana::SolanaKeyPair;
use anita::store::KeyTable;

fn new_key(suffix: &str) -> (NewKey, SolanaKeyPair) {
    let keypair = SolanaKeyPair::new();
    (NewKey::from_keypair(&keypair, Some(suffix.to_string())), keypair)
}

#[test]
fn rows_are_numbered_from_one_in_the_order_of_their_storing() {
    let mut table = KeyTable::new();
    assert_eq!(table.len(), 0);
    let (a, _) = new_key("ab");
    let (b, _) = new_key("ab");
    let first = table.insert(&a, 10).unwrap();
    let second = table.insert(&b, 20).unwrap();
    assert_eq!(first.id(), 1);
    assert_eq!(second.id(), 2);
    assert_eq!(first.created_at(), Some(10));
    assert_eq!(second.created_at(), Some(20));
    assert_eq!(first.used_at(), None);
    assert_eq!(first.suffix(), "ab");
    assert_eq!(first.chain(), "solana");
    assert_eq!(first.pubkey(), a.pubkey());
    assert_eq!(table.len(), 2);
}

#[test]
fn a_secret_is_stored_once() {
    let mut table = KeyTable::new();
    let (a, _) = new_key("ab");
    assert!(table.insert(&a, 10).is_some());
    assert!(table.insert(&a, 11).is_none());
    assert_eq!(table.len(), 1);

    // The same secret under another suffix is the same secret.
    let mut again = a.clone();
    again.set_used_at(Some(5));
    assert!(table.insert(&again, 12).is_none());
    assert_eq!(table.len(), 1);

    let mut other = a.clone();
    other.set_secret(&[1, 2, 3]);
    assert_eq!(table.insert(&other, 13).unwrap().id(), 2);
}

#[test]
fn a_claim_returns_the_earliest_unclaimed_row_marked_as_used() {
    let mut table = KeyTable::new();
    let (a, _) = new_key("ab");
    let (b, _) = new_key("cd");
    let (c, _) = new_key("ab");
    table.insert(&a, 1);
    table.insert(&b, 2);
    table.insert(&c, 3);

    let selected = table.select_unclaimed("solana", "ab").unwrap();
    assert_eq!(selected.id(), 1);
    assert_eq!(selected.used_at(), None);
    // Selecting changes nothing.
    assert_eq!(table.select_unclaimed("solana", "ab").unwrap().id(), 1);

    let marked = table.mark_used(selected.id(), 100).unwrap();
    assert_eq!(marked.id(), 1);
    assert_eq!(marked.used_at(), Some(100));
    assert_eq!(marked.pubkey(), a.pubkey());
    assert_eq!(marked.created_at(), Some(1));

    assert_eq!(table.select_unclaimed("solana", "ab").unwrap().id(), 3);
    assert_eq!(table.select_unclaimed("solana", "cd").unwrap().id(), 2);
    assert!(table.select_unclaimed("solana", "AB").is_none());
    assert!(table.select_unclaimed("solana", "a").is_none());
    assert!(table.select_unclaimed("eth", "ab").is_none());
    assert!(table.select_unclaimed("Solana", "ab").is_none());
}

#[test]
fn a_row_is_marked_only_while_it_is_unclaimed() {
    let mut table = KeyTable::new();
    let (a, _) = new_key("ab");
    table.insert(&a, 1);
    assert!(table.mark_used(0, 5).is_none());
    assert!(table.mark_used(2, 5).is_none());
    assert!(table.mark_used(-1, 5).is_none());
    assert!(table.mark_used(i32::MAX, 5).is_none());
    assert_eq!(table.mark_used(1, 5).unwrap().used_at(), Some(5));
    // A claim is not made twice, and the time of the first one stays.
    assert!(table.mark_used(1, 6).is_none());
    let row = table.find_by_pubkey("solana", a.pubkey()).unwrap();
    assert_eq!(row.key().used_at(), Some(5));
}

#[test]
fn two_claims_one_after_the_other_give_the_row_and_then_nothing() {
    let mut table = KeyTable::new();
    let (a, _) = new_key("ab");
    table.insert(&a, 1);

    let first = get_key_by_suffix(&mut table, Chain::Solana, "ab".to_string(), 10).unwrap();
    let second = get_key_by_suffix(&mut table, Chain::Solana, "ab".to_string(), 11).unwrap();
    let first = first.unwrap();
    assert_eq!(first.id(), 1);
    assert_eq!(first.used_at(), Some(10));
    assert_eq!(first.address(), a.address());
    assert!(second.is_none());
}

#[test]
fn two_racing_claims_give_the_row_to_one_of_them() {
    // Both select before either marks; a marks first.
    let mut table = KeyTable::new();
    let (key, _) = new_key("ab");
    table.insert(&key, 1);
    let seen_by_a = table.select_unclaimed("solana", "ab").unwrap();
    let seen_by_b = table.select_unclaimed("solana", "ab").unwrap();
    assert_eq!(seen_by_a.id(), seen_by_b.id());
    let a = table.mark_used(seen_by_a.id(), 10);
    let b = table.mark_used(seen_by_b.id(), 11);
    assert_eq!(a.unwrap().used_at(), Some(10));
    assert!(b.is_none());

    // Both select before either marks; b marks first.
    let mut table = KeyTable::new();
    table.insert(&key, 1);
    let seen_by_a = table.select_unclaimed("solana", "ab").unwrap();
    let seen_by_b = table.select_unclaimed("solana", "ab").unwrap();
    let b = table.mark_used(seen_by_b.id(), 11);
    let a = table.mark_used(seen_by_a.id(), 10);
    assert!(a.is_none());
    assert_eq!(b.unwrap().used_at(), Some(11));
}

#[test]
fn two_claims_made_in_parallel_give_the_row_to_one_of_them() {
    let (key, _) = new_key("ab");
    for _ in 0..50 {
        let mut table = KeyTable::new();
        table.insert(&key, 1);
        let table = std::sync::Mutex::new(table);
        let claim = |now: i64| {
            let seen = table.lock().unwrap().select_unclaimed("solana", "ab");
            match seen {
                Some(row) => table.lock().unwrap().mark_used(row.id(), now),
                None => None,
            }
        };
        let (a, b) = rayon::join(|| claim(10), || claim(11));
        assert!(a.is_some() != b.is_some());
    }
}

#[test]
fn a_claim_for_an_unknown_chain_is_refused() {
    let mut table = KeyTable::new();
    let (a, _) = new_key("ab");
    table.insert(&a, 1);
    let err = get_key_by_suffix(&mut table, Chain::Unknown, "ab".to_string(), 10).err().unwrap();
    assert_eq!(err.kind(), ErrorKind::UnsupportedChain);
    assert!(get_key_by_suffix(&mut table, Chain::Ethereum, "ab".to_string(), 10).unwrap().is_none());
    assert_eq!(table.select_unclaimed("solana", "ab").unwrap().id(), 1);

    let err = get_secret_by_pubkey(&table, Chain::Unknown, a.pubkey().to_string()).err().unwrap();
    assert_eq!(err.kind(), ErrorKind::UnsupportedChain);
}

#[test]
fn an_insert_that_stores_nothing_finds_no_row() {
    let mut table = KeyTable::new();
    let (a, _) = new_key("ab");
    let stored = create_key(&mut table, a.clone(), 7).unwrap();
    assert_eq!(stored.id(), 1);
    assert_eq!(stored.created_at(), Some(7));
    let err = create_key(&mut table, a, 8).err().unwrap();
    assert_eq!(err.kind(), ErrorKind::NotFound);
    assert_eq!(table.len(), 1);
}

#[test]
fn several_keys_are_stored_and_those_that_are_there_are_passed_over() {
    let mut table = KeyTable::new();
    let (a, _) = new_key("ab");
    let (b, _) = new_key("ab");
    let (c, _) = new_key("ab");
    create_key(&mut table, b.clone(), 1).unwrap();
    let ids = create_keys(&mut table, vec![a.clone(), b, c, a], 2).unwrap();
    assert_eq!(ids, vec![2, 3]);
    assert_eq!(table.len(), 3);
    assert_eq!(create_keys(&mut table, vec![], 3).unwrap(), Vec::<i32>::new());
}

#[test]
fn a_key_is_looked_up_by_chain_and_public_key_with_its_secret() {
    let mut table = KeyTable::new();
    let (a, keypair_a) = new_key("ab");
    let (b, _) = new_key("ab");
    table.insert(&a, 1);
    table.insert(&b, 2);
    table.mark_used(1, 9);

    let found = get_secret_by_pubkey(&table, Chain::Solana, a.pubkey().to_string()).unwrap().unwrap();
    assert_eq!(found.key().id(), 1);
    assert_eq!(found.key().used_at(), Some(9));
    assert_eq!(found.secret(), keypair_a.to_vec());
    let found = table.find_by_pubkey("solana", b.pubkey()).unwrap();
    assert_eq!(found.key().id(), 2);

    assert!(get_secret_by_pubkey(&table, Chain::Ethereum, a.pubkey().to_string()).unwrap().is_none());
    assert!(get_secret_by_pubkey(&table, Chain::Solana, "nobody".to_string()).unwrap().is_none());
    // The lookup changed nothing.
    assert_eq!(table.len(), 2);
    assert_eq!(table.select_unclaimed("solana", "ab").unwrap().id(), 2);
}

#[test]
fn a_key_is_looked_up_by_chain_and_number_with_its_secret() {
    let mut table = KeyTable::new();
    let (a, keypair_a) = new_key("ab");
    let (b, keypair_b) = new_key("ab");
    table.insert(&a, 1);
    table.insert(&b, 2);

    let found = get_secret_by_id(&table, Chain::Solana, 1).unwrap().unwrap();
    assert_eq!(found.key().id(), 1);
    assert_eq!(found.secret(), keypair_a.to_vec());
    let found = table.find_by_id("solana", 2).unwrap();
    assert_eq!(found.key().pubkey(), b.pubkey());
    assert_eq!(found.secret(), keypair_b.to_vec());

    assert!(table.find_by_id("solana", 0).is_none());
    assert!(table.find_by_id("solana", 3).is_none());
    assert!(table.find_by_id("solana", -2).is_none());
    assert!(table.find_by_id("eth", 1).is_none());
    assert!(get_secret_by_id(&table, Chain::Ethereum, 1).unwrap().is_none());
    let err = get_secret_by_id(&table, Chain::Unknown, 1).err().unwrap();
    assert_eq!(err.kind(), ErrorKind::UnsupportedChain);
}

#[test]
fn a_selected_row_is_marked_next_and_without_one_the_claim_is_over() {
    let mut table = KeyTable::new();
    let (a, _) = new_key("ab");
    table.insert(&a, 1);
    let selection = table.select_unclaimed("solana", "ab");
    assert_eq!(after_select(&selection), ClaimStep::MarkUsed { id: 1 });
    let selection = table.select_unclaimed("solana", "zz");
    assert_eq!(after_select(&selection), ClaimStep::Finish);
}
