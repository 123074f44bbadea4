//! The statements of the vault, run against a table on behalf of a chain.

use vstd::prelude::*;
use crate::chain::{chain_tag, Chain};
use crate::error::DatabaseError;
use crate::keys::{Key, KeyView, KeyWithSecret, NewKey, NewKeyView};
use crate::store::{
    claimed, found, found_by_id, inserted, key_view, secret_view, table_wf, KeyTable,
};

verus! {

/// The contents of a list of new rows.
pub open spec fn new_keys_view(keys: Seq<NewKey>) -> Seq<NewKeyView> {
    Seq::new(keys.len(), |i: int| keys[i]@)
}

/// The numbers as mathematical integers.
pub open spec fn ids_view(ids: Seq<i32>) -> Seq<int> {
    Seq::new(ids.len(), |i: int| ids[i] as int)
}

/// Inserts of several rows, one after the other: the table afterwards, and the
/// numbers of the rows that were stored, in order. A row that cannot be stored
/// is passed over.
pub open spec fn inserted_all(rows: Seq<KeyView>, keys: Seq<NewKeyView>, now: int) -> (
    Seq<KeyView>,
    Seq<int>,
)
    decreases keys.len(),
{
    if keys.len() == 0 {
        (rows, Seq::empty())
    } else {
        let (mid, ids) = inserted_all(rows, keys.drop_last(), now);
        match inserted(mid, keys.last(), now).1 {
            Some(row) => (inserted(mid, keys.last(), now).0, ids.push(row.id)),
            None => (mid, ids),
        }
    }
}

/// What a claim does once its first statement has returned.
#[derive(Clone, Copy, Debug, PartialEq, Eq, Structural)]
pub enum ClaimStep {
    /// Run the second statement on the row of this number.
    MarkUsed { id: i32 },
    /// Return without a key: no unclaimed row was selected.
    Finish,
}

/// Decides what a claim does once its first statement has returned
/// `selection`: a selected row is to be marked as used, on condition that it
/// is still unclaimed; without a row the claim is over.
pub fn after_select(selection: &Option<Key>) -> (r: ClaimStep)
    ensures
        match selection {
            Some(key) => r == (ClaimStep::MarkUsed { id: key@.id as i32 }) && r->id == key@.id,
            None => r == ClaimStep::Finish,
        },
{
    match selection {
        Some(key) => ClaimStep::MarkUsed { id: key.id() },
        None => ClaimStep::Finish,
    }
}

/// Claims the earliest unclaimed key of a chain and a suffix, at the time
/// `now`: the row is selected, then marked as used on condition that it is
/// still unclaimed, and returned as marked.
pub fn get_key_by_suffix(conn: &mut KeyTable, chain: Chain, suffix: String, now: i64) -> (r: Result<
    Option<Key>,
    DatabaseError,
>)
    ensures
        table_wf(final(conn)@),
        chain == Chain::Unknown ==> (r matches Err(DatabaseError::UnsupportedChain(_)) && final(conn)@
            == old(conn)@),
        chain != Chain::Unknown ==> (r matches Ok(key) && (final(conn)@, key_view(key)) == claimed(
            old(conn)@,
            chain_tag(chain),
            suffix@,
            now as int,
        )),
{
    conn.in_order();
    match chain {
        Chain::Unknown => Err(
            DatabaseError::UnsupportedChain("the chain has no tag".to_owned()),
        ),
        _ => {
            let tag = chain.to_string();
            let selection = conn.select_unclaimed(tag.as_str(), suffix.as_str());
            match after_select(&selection) {
                ClaimStep::MarkUsed { id } => Ok(conn.mark_used(id, now)),
                ClaimStep::Finish => Ok(None),
            }
        },
    }
}

/// Stores a new key at the time `now` and returns the stored row. Where a row
/// with the same secret is there already, or no number is left, nothing is
/// stored and no row is found to return.
pub fn create_key(conn: &mut KeyTable, key: NewKey, now: i64) -> (r: Result<Key, DatabaseError>)
    ensures
        table_wf(final(conn)@),
        final(conn)@ == inserted(old(conn)@, key@, now as int).0,
        match inserted(old(conn)@, key@, now as int).1 {
            Some(row) => r matches Ok(stored) && stored@ == row,
            None => r matches Err(DatabaseError::NotFound(_)),
        },
{
    match conn.insert(&key, now) {
        Some(stored) => Ok(stored),
        None => Err(DatabaseError::NotFound("the insert returned no row".to_owned())),
    }
}

/// Stores several new keys at the time `now`, passing over those that cannot
/// be stored, and returns the numbers of the rows that were stored.
pub fn create_keys(conn: &mut KeyTable, keys: Vec<NewKey>, now: i64) -> (r: Result<
    Vec<i32>,
    DatabaseError,
>)
    ensures
        table_wf(final(conn)@),
        r matches Ok(ids) && (final(conn)@, ids_view(ids@)) == inserted_all(
            old(conn)@,
            new_keys_view(keys@),
            now as int,
        ),
{
    conn.in_order();
    let mut ids: Vec<i32> = Vec::new();
    let mut i: usize = 0;
    let ghost all = new_keys_view(keys@);
    proof {
        assert(all.take(0) =~= Seq::<NewKeyView>::empty());
        assert(ids_view(ids@) =~= Seq::<int>::empty());
    }
    while i < keys.len()
        invariant
            i <= keys.len(),
            all == new_keys_view(keys@),
            table_wf(conn@),
            (conn@, ids_view(ids@)) == inserted_all(old(conn)@, all.take(i as int), now as int),
        decreases keys.len() - i,
    {
        let ghost before = conn@;
        let ghost ids_before = ids_view(ids@);
        proof {
            assert(all.take(i as int + 1).drop_last() =~= all.take(i as int));
            assert(all.take(i as int + 1).last() == keys@[i as int]@);
        }
        match conn.insert(&keys[i], now) {
            Some(stored) => {
                ids.push(stored.id());
                proof {
                    assert(ids_view(ids@) =~= ids_before.push(stored@.id));
                }
            },
            None => {},
        }
        i += 1;
    }
    proof {
        assert(all.take(keys.len() as int) =~= all);
    }
    Ok(ids)
}

/// Looks up the earliest key of a chain and a public key, with the secret
/// that it carries, for signing. The table stays as it is.
pub fn get_secret_by_pubkey(conn: &KeyTable, chain: Chain, pubkey: String) -> (r: Result<
    Option<KeyWithSecret>,
    DatabaseError,
>)
    ensures
        chain == Chain::Unknown ==> r matches Err(DatabaseError::UnsupportedChain(_)),
        chain != Chain::Unknown ==> (r matches Ok(key) && secret_view(key) == found(
            conn@,
            chain_tag(chain),
            pubkey@,
        )),
{
    match chain {
        Chain::Unknown => Err(
            DatabaseError::UnsupportedChain("the chain has no tag".to_owned()),
        ),
        _ => {
            let tag = chain.to_string();
            Ok(conn.find_by_pubkey(tag.as_str(), pubkey.as_str()))
        },
    }
}

/// Looks up the key of a chain by the number of its row, with the secret
/// that it carries, for signing. The table stays as it is.
pub fn get_secret_by_id(conn: &KeyTable, chain: Chain, id: i32) -> (r: Result<
    Option<KeyWithSecret>,
    DatabaseError,
>)
    ensures
        chain == Chain::Unknown ==> r matches Err(DatabaseError::UnsupportedChain(_)),
        chain != Chain::Unknown ==> (r matches Ok(key) && secret_view(key) == found_by_id(
            conn@,
            chain_tag(chain),
            id as int,
        )),
{
    match chain {
        Chain::Unknown => Err(
            DatabaseError::UnsupportedChain("the chain has no tag".to_owned()),
        ),
        _ => {
            let tag = chain.to_string();
            Ok(conn.find_by_id(tag.as_str(), id))
        },
    }
}

} // verus!
