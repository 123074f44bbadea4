//! The vault: a table of keys and the seed under which their secrets are
//! sealed. Without a seed the secrets are stored as they are.

use vstd::prelude::*;
use crate::chain::{chain_tag, Chain};
use crate::encryption::{
    decrypt, encrypt, opened_blob, sealable, sealed_blob, to_seed, seed_of, KEY_LEN, NONCE_LEN,
};
use crate::error::DatabaseError;
use crate::handlers::{create_key, get_key_by_suffix, get_secret_by_id, get_secret_by_pubkey};
use crate::keys::{
    Key, KeyView, KeyWithSecret, KeyWithSecretView, LookupKeyView, NewKey, NewKeyView,
};
use crate::store::{claimed, found_by, inserted, key_view, table_wf, KeyTable};

verus! {

/// Whether an error comes from the store itself and not from the request.
pub open spec fn is_store_failure(e: DatabaseError) -> bool {
    e is DatabaseRunError || e is DatabaseError
}

/// Whether `stored` is a form in which `secret` may be kept under `seed`:
/// the secret itself where there is no seed, else a blob sealed under the
/// seed with some 12-byte nonce, which opens to the secret again.
pub open spec fn kept_as(seed: Option<Seq<u8>>, secret: Seq<u8>, stored: Seq<u8>) -> bool {
    match seed {
        None => stored == secret,
        Some(s) => {
            &&& opened_blob(s, stored) == Some(secret)
            &&& exists|nonce: Seq<u8>|
                nonce.len() == NONCE_LEN && stored == #[trigger] sealed_blob(s, nonce, secret)
        },
    }
}

/// A new row with its secret replaced by the form in which it is kept.
pub open spec fn kept_row(key: NewKeyView, stored: Seq<u8>) -> NewKeyView {
    NewKeyView { secret: stored, ..key }
}

/// What a claim owes. On success the table has gone through a claim at some
/// time and the result is what that claim returned. A chain without a tag is
/// refused. A store may fail; then, as after every refusal, the table is as
/// it was.
pub open spec fn claim_post(
    before: Seq<KeyView>,
    chain: Chain,
    suffix: Seq<char>,
    after: Seq<KeyView>,
    r: Result<Option<Key>, DatabaseError>,
) -> bool {
    match r {
        Ok(key) => chain != Chain::Unknown && exists|now: int|
            (after, key_view(key)) == #[trigger] claimed(before, chain_tag(chain), suffix, now),
        Err(e) => after == before && if chain == Chain::Unknown {
            e is UnsupportedChain
        } else {
            is_store_failure(e)
        },
    }
}

/// What the storing of a new key owes. On success the row was inserted at
/// some time with its secret in a form in which it may be kept, and the
/// result is the stored row. A secret that cannot be sealed is refused; where
/// the insert stores nothing, no row is found. A store may fail. After every
/// error the table is as it was.
pub open spec fn create_post(
    before: Seq<KeyView>,
    seed: Option<Seq<u8>>,
    key: NewKeyView,
    after: Seq<KeyView>,
    r: Result<Key, DatabaseError>,
) -> bool {
    match r {
        Ok(row) => exists|stored: Seq<u8>, now: int|
            kept_as(seed, key.secret, stored) && (after, Some(row@)) == #[trigger] inserted(
                before,
                kept_row(key, stored),
                now,
            ),
        Err(e) => after == before && match e {
            DatabaseError::SecretError(_) => seed is Some && !sealable(key.secret),
            DatabaseError::NotFound(_) => exists|stored: Seq<u8>, now: int|
                kept_as(seed, key.secret, stored) && (#[trigger] inserted(
                    before,
                    kept_row(key, stored),
                    now,
                )).1 is None,
            _ => is_store_failure(e),
        },
    }
}

/// What an exact lookup returns: nothing where no row answers it; else the
/// row with its secret laid open, which fails where a seed is set and the
/// stored secret does not open under it.
pub open spec fn looked_up(
    rows: Seq<KeyView>,
    seed: Option<Seq<u8>>,
    tag: Seq<char>,
    lookup: LookupKeyView,
) -> Result<Option<KeyWithSecretView>, ()> {
    match found_by(rows, tag, lookup) {
        None => Ok(None),
        Some(row) => match seed {
            None => Ok(Some(row)),
            Some(s) => match opened_blob(s, row.secret) {
                Some(secret) => Ok(Some(KeyWithSecretView { key: row.key, secret })),
                None => Err(()),
            },
        },
    }
}

/// What a lookup for signing owes: the result of the exact lookup, with a
/// decryption error where the secret does not open. A chain without a tag is
/// refused. A store may fail.
pub open spec fn lookup_post(
    rows: Seq<KeyView>,
    seed: Option<Seq<u8>>,
    chain: Chain,
    lookup: LookupKeyView,
    r: Result<Option<KeyWithSecret>, DatabaseError>,
) -> bool {
    if chain == Chain::Unknown {
        r matches Err(DatabaseError::UnsupportedChain(_))
    } else {
        match r {
            Ok(Some(key)) => looked_up(rows, seed, chain_tag(chain), lookup) == Ok::<
                Option<KeyWithSecretView>,
                (),
            >(Some(key@)),
            Ok(None) => looked_up(rows, seed, chain_tag(chain), lookup) == Ok::<
                Option<KeyWithSecretView>,
                (),
            >(None),
            Err(e) => if e is DecryptionError {
                looked_up(rows, seed, chain_tag(chain), lookup) is Err
            } else {
                is_store_failure(e)
            },
        }
    }
}

/// What a store of keys offers: claim by suffix, insert, and lookup for
/// signing.
pub trait KeyTrait {
    /// Whether stores of this type never fail by themselves.
    spec fn reliable() -> bool;

    /// The rows that are stored.
    spec fn rows(&self) -> Seq<KeyView>;

    /// The seed under which secrets are sealed, if one is set.
    spec fn seed(&self) -> Option<Seq<u8>>;

    /// Get a key by suffix and chain: claims the key and returns it, or
    /// returns nothing where no unclaimed key is left.
    fn get_key_by_suffix(&mut self, chain: Chain, suffix: &str) -> (r: Result<
        Option<Key>,
        DatabaseError,
    >)
        ensures
            final(self).seed() == old(self).seed(),
            claim_post(old(self).rows(), chain, suffix@, final(self).rows(), r),
            Self::reliable() ==> !(r matches Err(e) && is_store_failure(e)),
    ;

    /// Create a key. If the seed is set, the secret is sealed with it;
    /// otherwise it is stored as it is.
    fn create_key(&mut self, key: NewKey) -> (r: Result<Key, DatabaseError>)
        ensures
            final(self).seed() == old(self).seed(),
            create_post(old(self).rows(), old(self).seed(), key@, final(self).rows(), r),
            Self::reliable() ==> !(r matches Err(e) && is_store_failure(e)),
    ;

    /// Get a key by public key, with its secret laid open for signing. The
    /// store stays as it is.
    fn get_secret_by_pubkey(&self, chain: Chain, pubkey: &str) -> (r: Result<
        Option<KeyWithSecret>,
        DatabaseError,
    >)
        ensures
            lookup_post(self.rows(), self.seed(), chain, LookupKeyView::Pubkey(pubkey@), r),
            Self::reliable() ==> !(r matches Err(e) && is_store_failure(e)),
    ;

    /// Get a key by the number of its row, with its secret laid open for
    /// signing. The store stays as it is.
    fn get_secret_by_id(&self, chain: Chain, id: i32) -> (r: Result<
        Option<KeyWithSecret>,
        DatabaseError,
    >)
        ensures
            lookup_post(self.rows(), self.seed(), chain, LookupKeyView::Id(id as int), r),
            Self::reliable() ==> !(r matches Err(e) && is_store_failure(e)),
    ;
}

/// The form in which a new key is kept under `seed`: with its secret sealed
/// under a fresh nonce where there is a seed, as it is where there is none.
pub fn seal_key(seed: &Option<Vec<u8>>, key: NewKey) -> (r: Result<NewKey, DatabaseError>)
    requires
        seed matches Some(s) ==> s@.len() == KEY_LEN,
    ensures
        r is Ok <==> seed is None || sealable(key@.secret),
        r matches Ok(kept) ==> kept@ == kept_row(key@, kept@.secret) && kept_as(
            bytes_view(*seed),
            key@.secret,
            kept@.secret,
        ),
        r matches Err(e) ==> e is SecretError,
{
    let mut key = key;
    match seed {
        Some(s) => {
            let secret = key.get_secret();
            match encrypt(s.as_slice(), secret.as_slice()) {
                Ok(sealed) => {
                    key.set_secret(sealed.as_slice());
                    Ok(key)
                },
                Err(_) => Err(
                    DatabaseError::SecretError("the secret is too long to seal".to_owned()),
                ),
            }
        },
        None => Ok(key),
    }
}

/// A stored key with its secret laid open under `seed`: opened where there is
/// a seed, as it is where there is none.
pub fn open_key(seed: &Option<Vec<u8>>, key: KeyWithSecret) -> (r: Result<
    KeyWithSecret,
    DatabaseError,
>)
    requires
        seed matches Some(s) ==> s@.len() == KEY_LEN,
    ensures
        match *seed {
            None => r matches Ok(opened) && opened@ == key@,
            Some(s) => match opened_blob(s@, key@.secret) {
                Some(secret) => r matches Ok(opened) && opened@ == (KeyWithSecretView {
                    key: key@.key,
                    secret,
                }),
                None => r matches Err(DatabaseError::DecryptionError),
            },
        },
{
    match seed {
        Some(s) => {
            let sealed = key.secret();
            match decrypt(s.as_slice(), sealed.as_slice()) {
                Ok(opened) => {
                    let mut key = key;
                    key.set_secret(opened.as_slice());
                    Ok(key)
                },
                Err(_) => Err(DatabaseError::DecryptionError),
            }
        },
        None => Ok(key),
    }
}

/// `chrono::Utc::now`, in microseconds since the Unix epoch.
#[verifier::external_body]
pub(crate) fn utc_now() -> i64 {
    chrono::Utc::now().timestamp_micros()
}

/// The vault, held in memory.
pub struct Database {
    table: KeyTable,
    seed: Option<Vec<u8>>,
}

/// The content of an optional byte string.
pub open spec fn bytes_view(bytes: Option<Vec<u8>>) -> Option<Seq<u8>> {
    match bytes {
        Some(b) => Some(b@),
        None => None,
    }
}

impl Database {
    #[verifier::type_invariant]
    spec fn inv(self) -> bool {
        self.seed matches Some(s) ==> s@.len() == KEY_LEN
    }

    /// An empty vault with the given seed, which has 32 bytes.
    pub fn new_pool(seed: Option<Vec<u8>>) -> (r: Self)
        requires
            seed matches Some(s) ==> s@.len() == KEY_LEN,
        ensures
            r.rows() == Seq::<KeyView>::empty(),
            r.seed() == bytes_view(seed),
    {
        Database { table: KeyTable::new(), seed }
    }

    /// An empty vault with the given seed; `None` where the seed has not 32
    /// bytes.
    pub fn checked_new_pool(seed: Option<Vec<u8>>) -> (r: Option<Self>)
        ensures
            r is None <==> (seed matches Some(s) && s@.len() != KEY_LEN),
            r matches Some(db) ==> db.rows() == Seq::<KeyView>::empty() && db.seed() == bytes_view(
                seed,
            ),
    {
        let fits = match &seed {
            Some(s) => s.len() == KEY_LEN,
            None => true,
        };
        if fits {
            Some(Database::new_pool(seed))
        } else {
            None
        }
    }

    /// Reads a seed from hexadecimal text.
    pub fn to_seed(seed: &str) -> (r: Result<Vec<u8>, DatabaseError>)
        ensures
            match seed_of(seed@) {
                Some(bytes) => r matches Ok(v) && v@ == bytes,
                None => r matches Err(DatabaseError::SecretError(_)),
            },
    {
        to_seed(seed)
    }

    /// The table.
    pub fn with_conn(&self) -> (r: &KeyTable)
        ensures
            r@ == self.rows(),
            table_wf(r@),
    {
        self.table.in_order();
        &self.table
    }

    /// Claims the earliest unclaimed key of a chain and a suffix at the
    /// time `now`.
    pub fn claim_at(&mut self, chain: Chain, suffix: &str, now: i64) -> (r: Result<
        Option<Key>,
        DatabaseError,
    >)
        ensures
            final(self).seed() == old(self).seed(),
            chain == Chain::Unknown ==> (r matches Err(DatabaseError::UnsupportedChain(_)) && final(
                self
            ).rows() == old(self).rows()),
            chain != Chain::Unknown ==> (r matches Ok(key) && (final(self).rows(), key_view(key))
                == claimed(old(self).rows(), chain_tag(chain), suffix@, now as int)),
    {
        proof {
            use_type_invariant(&*self);
        }
        let mut table = KeyTable::new();
        core::mem::swap(&mut self.table, &mut table);
        let r = get_key_by_suffix(&mut table, chain, suffix.to_owned(), now);
        core::mem::swap(&mut self.table, &mut table);
        r
    }

    /// Stores a row as it is given, at the time `now`: the secret is not
    /// sealed here.
    pub fn store_at(&mut self, key: NewKey, now: i64) -> (r: Result<Key, DatabaseError>)
        ensures
            final(self).seed() == old(self).seed(),
            final(self).rows() == inserted(old(self).rows(), key@, now as int).0,
            match inserted(old(self).rows(), key@, now as int).1 {
                Some(row) => r matches Ok(stored) && stored@ == row,
                None => r matches Err(DatabaseError::NotFound(_)),
            },
    {
        proof {
            use_type_invariant(&*self);
        }
        let mut table = KeyTable::new();
        core::mem::swap(&mut self.table, &mut table);
        let r = create_key(&mut table, key, now);
        core::mem::swap(&mut self.table, &mut table);
        r
    }
}

impl KeyTrait for Database {
    open spec fn reliable() -> bool {
        true
    }

    closed spec fn rows(&self) -> Seq<KeyView> {
        self.table@
    }

    closed spec fn seed(&self) -> Option<Seq<u8>> {
        bytes_view(self.seed)
    }

    fn get_key_by_suffix(&mut self, chain: Chain, suffix: &str) -> (r: Result<
        Option<Key>,
        DatabaseError,
    >) {
        let now = utc_now();
        self.claim_at(chain, suffix, now)
    }

    fn create_key(&mut self, key: NewKey) -> (r: Result<Key, DatabaseError>) {
        proof {
            use_type_invariant(&*self);
        }
        match seal_key(&self.seed, key) {
            Ok(kept) => {
                let now = utc_now();
                self.store_at(kept, now)
            },
            Err(e) => Err(e),
        }
    }

    fn get_secret_by_pubkey(&self, chain: Chain, pubkey: &str) -> (r: Result<
        Option<KeyWithSecret>,
        DatabaseError,
    >) {
        proof {
            use_type_invariant(self);
        }
        match get_secret_by_pubkey(&self.table, chain, pubkey.to_owned()) {
            Ok(Some(key)) => match open_key(&self.seed, key) {
                Ok(opened) => Ok(Some(opened)),
                Err(e) => Err(e),
            },
            Ok(None) => Ok(None),
            Err(e) => Err(e),
        }
    }

    fn get_secret_by_id(&self, chain: Chain, id: i32) -> (r: Result<
        Option<KeyWithSecret>,
        DatabaseError,
    >) {
        proof {
            use_type_invariant(self);
        }
        match get_secret_by_id(&self.table, chain, id) {
            Ok(Some(key)) => match open_key(&self.seed, key) {
                Ok(opened) => Ok(Some(opened)),
                Err(e) => Err(e),
            },
            Ok(None) => Ok(None),
            Err(e) => Err(e),
        }
    }
}

} // verus!
