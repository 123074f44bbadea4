//! The rows of the vault: a stored key, a key with its secret laid open for
//! one signature, and a key that is about to be stored.
//!
//! Times are microseconds since the Unix epoch.

use vstd::prelude::*;
use crate::chain::{chain_tag, Chain};
use crate::error::DatabaseError;
use crate::keypair::KeypairStrategy;
use crate::text::{ascii_lower, to_ascii_lowercase, trailing};

verus! {

/// Characters of the address that make the suffix where none is given.
pub const SUFFIX_LEN: usize = 4;

/// A stored key. The secret that it carries cannot be read from it, nor is
/// it written out with it.
pub struct Key {
    id: i32,
    chain: String,
    secret: Vec<u8>,
    pubkey: String,
    address: String,
    suffix: String,
    used_at: Option<i64>,
    created_at: Option<i64>,
}

/// The mathematical content of a stored key.
pub struct KeyView {
    pub id: int,
    pub chain: Seq<char>,
    pub secret: Seq<u8>,
    pub pubkey: Seq<char>,
    pub address: Seq<char>,
    pub suffix: Seq<char>,
    pub used_at: Option<int>,
    pub created_at: Option<int>,
}

/// What of a stored key is shown outside the vault: everything but the secret.
#[derive(Debug)]
pub struct KeyInfo {
    pub id: i32,
    pub chain: String,
    pub pubkey: String,
    pub address: String,
    pub suffix: String,
    pub used_at: Option<i64>,
    pub created_at: Option<i64>,
}

/// The mathematical content of a `KeyInfo`.
pub struct KeyInfoView {
    pub id: int,
    pub chain: Seq<char>,
    pub pubkey: Seq<char>,
    pub address: Seq<char>,
    pub suffix: Seq<char>,
    pub used_at: Option<int>,
    pub created_at: Option<int>,
}

/// A time as a mathematical integer.
pub open spec fn time_view(t: Option<i64>) -> Option<int> {
    match t {
        Some(v) => Some(v as int),
        None => None,
    }
}

/// Whether a row is unclaimed and stored for a chain tag and a suffix.
pub open spec fn is_unclaimed(row: KeyView, tag: Seq<char>, suffix: Seq<char>) -> bool {
    row.used_at is None && row.chain == tag && row.suffix == suffix
}

/// Whether a row is stored for a chain tag and a public key.
pub open spec fn is_key_of(row: KeyView, tag: Seq<char>, pubkey: Seq<char>) -> bool {
    row.chain == tag && row.pubkey == pubkey
}

/// What a key is looked up by for signing.
#[derive(Debug, Clone)]
pub enum LookupKey {
    /// The public key.
    Pubkey(String),
    /// The number of the row.
    Id(i32),
}

/// The mathematical content of a `LookupKey`.
pub enum LookupKeyView {
    Pubkey(Seq<char>),
    Id(int),
}

impl View for LookupKey {
    type V = LookupKeyView;

    open spec fn view(&self) -> LookupKeyView {
        match self {
            LookupKey::Pubkey(pubkey) => LookupKeyView::Pubkey(pubkey@),
            LookupKey::Id(id) => LookupKeyView::Id(*id as int),
        }
    }
}

/// What of a key is shown outside the vault.
pub open spec fn shown(key: KeyView) -> KeyInfoView {
    KeyInfoView {
        id: key.id,
        chain: key.chain,
        pubkey: key.pubkey,
        address: key.address,
        suffix: key.suffix,
        used_at: key.used_at,
        created_at: key.created_at,
    }
}

impl View for KeyInfo {
    type V = KeyInfoView;

    open spec fn view(&self) -> KeyInfoView {
        KeyInfoView {
            id: self.id as int,
            chain: self.chain@,
            pubkey: self.pubkey@,
            address: self.address@,
            suffix: self.suffix@,
            used_at: time_view(self.used_at),
            created_at: time_view(self.created_at),
        }
    }
}

impl View for Key {
    type V = KeyView;

    closed spec fn view(&self) -> KeyView {
        KeyView {
            id: self.id as int,
            chain: self.chain@,
            secret: self.secret@,
            pubkey: self.pubkey@,
            address: self.address@,
            suffix: self.suffix@,
            used_at: time_view(self.used_at),
            created_at: time_view(self.created_at),
        }
    }
}

impl Clone for Key {
    fn clone(&self) -> (r: Self)
        ensures
            r@ == self@,
    {
        Key {
            id: self.id,
            chain: self.chain.clone(),
            secret: self.secret.clone(),
            pubkey: self.pubkey.clone(),
            address: self.address.clone(),
            suffix: self.suffix.clone(),
            used_at: self.used_at,
            created_at: self.created_at,
        }
    }
}

impl Key {
    /// A key with the given content.
    pub fn new(
        id: i32,
        chain: String,
        secret: Vec<u8>,
        pubkey: String,
        address: String,
        suffix: String,
        used_at: Option<i64>,
        created_at: Option<i64>,
    ) -> (r: Key)
        ensures
            r@ == (KeyView {
                id: id as int,
                chain: chain@,
                secret: secret@,
                pubkey: pubkey@,
                address: address@,
                suffix: suffix@,
                used_at: time_view(used_at),
                created_at: time_view(created_at),
            }),
    {
        Key { id, chain, secret, pubkey, address, suffix, used_at, created_at }
    }

    /// The number of the row.
    pub fn id(&self) -> (r: i32)
        ensures
            r == self@.id,
    {
        self.id
    }

    /// The tag of the chain.
    pub fn chain(&self) -> (r: &str)
        ensures
            r@ == self@.chain,
    {
        self.chain.as_str()
    }

    /// The public key.
    pub fn pubkey(&self) -> (r: &str)
        ensures
            r@ == self@.pubkey,
    {
        self.pubkey.as_str()
    }

    /// The address.
    pub fn address(&self) -> (r: &str)
        ensures
            r@ == self@.address,
    {
        self.address.as_str()
    }

    /// The suffix under which the key is found.
    pub fn suffix(&self) -> (r: &str)
        ensures
            r@ == self@.suffix,
    {
        self.suffix.as_str()
    }

    /// When the key was claimed, if it was.
    pub fn used_at(&self) -> (r: Option<i64>)
        ensures
            time_view(r) == self@.used_at,
    {
        self.used_at
    }

    /// When the key was stored.
    pub fn created_at(&self) -> (r: Option<i64>)
        ensures
            time_view(r) == self@.created_at,
    {
        self.created_at
    }

    /// Whether the key is unclaimed and stored for this chain and suffix.
    pub fn matches_unclaimed(&self, tag: &String, suffix: &String) -> (r: bool)
        ensures
            r == is_unclaimed(self@, tag@, suffix@),
    {
        self.used_at.is_none() && self.chain == *tag && self.suffix == *suffix
    }

    /// Whether the key is stored for this chain and public key.
    pub fn matches_pubkey(&self, tag: &String, pubkey: &String) -> (r: bool)
        ensures
            r == is_key_of(self@, tag@, pubkey@),
    {
        self.chain == *tag && self.pubkey == *pubkey
    }

    /// Whether the key is stored for this chain.
    pub fn has_chain(&self, tag: &String) -> (r: bool)
        ensures
            r == (self@.chain == tag@),
    {
        self.chain == *tag
    }

    /// Whether the key carries this secret.
    pub(crate) fn carries(&self, secret: &Vec<u8>) -> (r: bool)
        ensures
            r == (self@.secret == secret@),
    {
        let r = self.secret == *secret;
        proof {
            if r {
                assert(self.secret@ =~= secret@);
            }
        }
        r
    }

    /// The same key, claimed at `now`.
    pub fn claimed(&self, now: i64) -> (r: Key)
        ensures
            r@ == (KeyView { used_at: Some(now as int), ..self@ }),
    {
        Key {
            id: self.id,
            chain: self.chain.clone(),
            secret: self.secret.clone(),
            pubkey: self.pubkey.clone(),
            address: self.address.clone(),
            suffix: self.suffix.clone(),
            used_at: Some(now),
            created_at: self.created_at,
        }
    }

    /// The key together with the secret that it carries.
    pub(crate) fn with_secret(&self) -> (r: KeyWithSecret)
        ensures
            r@ == (KeyWithSecretView { key: self@, secret: self@.secret }),
    {
        KeyWithSecret { key: self.clone(), secret: self.secret.clone() }
    }

    /// What of the key is shown outside the vault.
    pub fn info(&self) -> (r: KeyInfo)
        ensures
            r@ == shown(self@),
    {
        KeyInfo {
            id: self.id,
            chain: self.chain.clone(),
            pubkey: self.pubkey.clone(),
            address: self.address.clone(),
            suffix: self.suffix.clone(),
            used_at: self.used_at,
            created_at: self.created_at,
        }
    }
}

/// A stored key with a secret laid beside it, for one signature.
pub struct KeyWithSecret {
    key: Key,
    secret: Vec<u8>,
}

/// The mathematical content of a `KeyWithSecret`.
pub struct KeyWithSecretView {
    pub key: KeyView,
    pub secret: Seq<u8>,
}

impl View for KeyWithSecret {
    type V = KeyWithSecretView;

    closed spec fn view(&self) -> KeyWithSecretView {
        KeyWithSecretView { key: self.key@, secret: self.secret@ }
    }
}

impl KeyWithSecret {
    /// A key with a secret beside it.
    pub fn new(key: Key, secret: Vec<u8>) -> (r: KeyWithSecret)
        ensures
            r@ == (KeyWithSecretView { key: key@, secret: secret@ }),
    {
        KeyWithSecret { key, secret }
    }

    /// The stored key.
    pub fn key(&self) -> (r: &Key)
        ensures
            r@ == self@.key,
    {
        &self.key
    }

    /// Get the secret key.
    pub fn secret(&self) -> (r: Vec<u8>)
        ensures
            r@ == self@.secret,
    {
        self.secret.clone()
    }

    /// Set the secret key.
    pub fn set_secret(&mut self, src: &[u8])
        ensures
            final(self)@ == (KeyWithSecretView { secret: src@, ..old(self)@ }),
    {
        let mut secret: Vec<u8> = Vec::new();
        secret.extend_from_slice(src);
        assert(secret@ =~= src@);
        self.secret = secret;
    }

    /// Signs a message with the keypair that the secret holds, by way of the
    /// strategy `keypair`.
    pub fn sign<S: KeypairStrategy>(&self, keypair: S, message: &[u8]) -> (r: Result<
        String,
        DatabaseError,
    >)
        ensures
            S::accepts(self@.secret) ==> (r matches Ok(signature) && signature@
                == S::signature_text(self@.secret, message@)),
            !S::accepts(self@.secret) ==> r matches Err(DatabaseError::SecretError(_)),
    {
        let mut keypair = keypair;
        match keypair.recover_from_bytes(self.secret.as_slice()) {
            Ok(()) => keypair.sign(message),
            Err(e) => Err(e),
        }
    }
}

/// A key that is about to be stored.
pub struct NewKey {
    chain: String,
    secret: Vec<u8>,
    pubkey: String,
    address: String,
    suffix: String,
    used_at: Option<i64>,
}

/// The mathematical content of a `NewKey`.
pub struct NewKeyView {
    pub chain: Seq<char>,
    pub secret: Seq<u8>,
    pub pubkey: Seq<char>,
    pub address: Seq<char>,
    pub suffix: Seq<char>,
    pub used_at: Option<int>,
}

impl View for NewKey {
    type V = NewKeyView;

    closed spec fn view(&self) -> NewKeyView {
        NewKeyView {
            chain: self.chain@,
            secret: self.secret@,
            pubkey: self.pubkey@,
            address: self.address@,
            suffix: self.suffix@,
            used_at: time_view(self.used_at),
        }
    }
}

impl Clone for NewKey {
    fn clone(&self) -> (r: Self)
        ensures
            r@ == self@,
    {
        NewKey {
            chain: self.chain.clone(),
            secret: self.secret.clone(),
            pubkey: self.pubkey.clone(),
            address: self.address.clone(),
            suffix: self.suffix.clone(),
            used_at: self.used_at,
        }
    }
}

/// The suffix under which a key is stored: the one given, or else the last
/// four characters of the address; in lower case either way.
pub open spec fn stored_suffix(address: Seq<char>, given: Option<Seq<char>>) -> Seq<char> {
    match given {
        Some(suffix) => ascii_lower(suffix),
        None => ascii_lower(trailing(address, SUFFIX_LEN as nat)),
    }
}

/// The row that is stored for the keypair `bytes` of a strategy.
pub open spec fn new_key_of<S: KeypairStrategy>(bytes: Seq<u8>, given: Option<Seq<char>>) -> NewKeyView {
    NewKeyView {
        chain: chain_tag(S::chain_of()),
        secret: bytes,
        pubkey: S::public_text(bytes),
        address: S::address_text(bytes),
        suffix: stored_suffix(S::address_text(bytes), given),
        used_at: None,
    }
}

/// The text of an optional string.
pub open spec fn text_view(s: Option<String>) -> Option<Seq<char>> {
    match s {
        Some(t) => Some(t@),
        None => None,
    }
}

impl NewKey {
    /// The row for a keypair, unclaimed. Where no suffix is given, the address
    /// must have the four characters that make one.
    pub fn from_keypair<S: KeypairStrategy>(keypair: &S, suffix: Option<String>) -> (r: NewKey)
        requires
            S::chain_of() != Chain::Unknown,
            suffix is None ==> S::address_text(keypair.key_bytes()).len() >= SUFFIX_LEN,
        ensures
            r@ == new_key_of::<S>(keypair.key_bytes(), text_view(suffix)),
    {
        let address = keypair.address();
        let secret = keypair.to_vec();
        let suffix = match suffix {
            Some(given) => to_ascii_lowercase(given.as_str()),
            None => {
                let n = address.as_str().unicode_len();
                to_ascii_lowercase(address.as_str().substring_char(n - SUFFIX_LEN, n))
            },
        };
        NewKey {
            chain: keypair.chain().to_string(),
            secret,
            pubkey: keypair.pubkey(),
            address,
            suffix,
            used_at: None,
        }
    }

    /// The row for a keypair, unclaimed; `None` where no suffix is given and
    /// the address is too short to make one.
    pub fn checked_from_keypair<S: KeypairStrategy>(keypair: &S, suffix: Option<String>) -> (r:
        Option<NewKey>)
        requires
            S::chain_of() != Chain::Unknown,
        ensures
            r is None <==> suffix is None && S::address_text(keypair.key_bytes()).len()
                < SUFFIX_LEN,
            r matches Some(key) ==> key@ == new_key_of::<S>(
                keypair.key_bytes(),
                text_view(suffix),
            ),
    {
        if suffix.is_none() && keypair.address().as_str().unicode_len() < SUFFIX_LEN {
            None
        } else {
            Some(NewKey::from_keypair(keypair, suffix))
        }
    }

    /// The tag of the chain.
    pub fn chain(&self) -> (r: &str)
        ensures
            r@ == self@.chain,
    {
        self.chain.as_str()
    }

    /// The public key.
    pub fn pubkey(&self) -> (r: &str)
        ensures
            r@ == self@.pubkey,
    {
        self.pubkey.as_str()
    }

    /// The address.
    pub fn address(&self) -> (r: &str)
        ensures
            r@ == self@.address,
    {
        self.address.as_str()
    }

    /// The suffix under which the key will be found.
    pub fn suffix(&self) -> (r: &str)
        ensures
            r@ == self@.suffix,
    {
        self.suffix.as_str()
    }

    /// When the key was claimed, if it is stored as claimed.
    pub fn used_at(&self) -> (r: Option<i64>)
        ensures
            time_view(r) == self@.used_at,
    {
        self.used_at
    }

    /// The secret as it will be stored.
    pub fn get_secret(&self) -> (r: Vec<u8>)
        ensures
            r@ == self@.secret,
    {
        self.secret.clone()
    }

    /// Replaces the secret, as when it has been sealed.
    pub fn set_secret(&mut self, encrypted: &[u8])
        ensures
            final(self)@ == (NewKeyView { secret: encrypted@, ..old(self)@ }),
    {
        let mut secret: Vec<u8> = Vec::new();
        secret.extend_from_slice(encrypted);
        assert(secret@ =~= encrypted@);
        self.secret = secret;
    }

    /// Marks the row as claimed before it is stored, or as unclaimed.
    pub fn set_used_at(&mut self, used_at: Option<i64>)
        ensures
            final(self)@ == (NewKeyView { used_at: time_view(used_at), ..old(self)@ }),
    {
        self.used_at = used_at;
    }

    /// The stored key that this row becomes under the number `id`, stored
    /// at `now`.
    pub fn stored(&self, id: i32, now: i64) -> (r: Key)
        ensures
            r@ == stored_row(self@, id as int, now as int),
    {
        Key {
            id,
            chain: self.chain.clone(),
            secret: self.secret.clone(),
            pubkey: self.pubkey.clone(),
            address: self.address.clone(),
            suffix: self.suffix.clone(),
            used_at: self.used_at,
            created_at: Some(now),
        }
    }
}

/// The stored key that a new row becomes under the number `id`, stored at `now`.
pub open spec fn stored_row(key: NewKeyView, id: int, now: int) -> KeyView {
    KeyView {
        id,
        chain: key.chain,
        secret: key.secret,
        pubkey: key.pubkey,
        address: key.address,
        suffix: key.suffix,
        used_at: key.used_at,
        created_at: Some(now),
    }
}

/// Two keys that differ in nothing but the secret are shown alike: the secret
/// has no part in what is shown.
pub proof fn lemma_secret_is_not_shown(a: KeyView, b: KeyView)
    requires
        a.id == b.id,
        a.chain == b.chain,
        a.pubkey == b.pubkey,
        a.address == b.address,
        a.suffix == b.suffix,
        a.used_at == b.used_at,
        a.created_at == b.created_at,
    ensures
        shown(a) == shown(b),
{
}

} // verus!
