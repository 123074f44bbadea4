//! The services that the vault offers to its callers: claim a key by its
//! suffix, generate and vault a key, sign a message with a vaulted key.

use vstd::prelude::*;
use vstd::utf8::encode_utf8;
use crate::chain::{chain_tag, lemma_tag_round_trip, parse_chain, Chain};
use crate::context::KeypairContext;
use crate::database::{
    claim_post, create_post, is_store_failure, kept_as, kept_row, looked_up, KeyTrait,
};
use crate::encoding::base58;
use crate::error::{DatabaseError, ErrorKind};
use crate::keypair::KeypairStrategy;
use crate::keys::{
    new_key_of, text_view, time_view, Key, KeyView, KeyWithSecret, KeyWithSecretView, LookupKey,
    LookupKeyView, NewKey, NewKeyView, SUFFIX_LEN,
};
use crate::store::{
    first_row, found, inserted, is_first, lemma_first_place_is, rows_of_pubkey, secret_view,
    table_wf,
};
use crate::solana::{ed25519_signature, keypair_accepted, SolanaKeyPair};

verus! {

/// A request to claim a key of a chain by its suffix.
#[derive(Debug, Clone)]
pub struct SuffixKeyGenRequest {
    pub chain: Chain,
    pub suffix: String,
}

/// A request to generate and vault a key of a chain.
#[derive(Debug, Clone, Copy)]
pub struct KeyGenRequest {
    pub chain: Chain,
}

/// A request to sign a message with the vaulted key of a public key.
#[derive(Debug, Clone)]
pub struct KeySignRequest {
    pub chain: Chain,
    pub pubkey: String,
    pub message: String,
}

/// A signature, with the message that was signed and the public key that it
/// was signed for.
#[derive(Debug)]
pub struct KeySignResponse {
    pub signature: String,
    pub message: String,
    pub pubkey: String,
}

/// The mathematical content of a `KeySignResponse`.
pub struct KeySignResponseView {
    pub signature: Seq<char>,
    pub message: Seq<char>,
    pub pubkey: Seq<char>,
}

impl View for KeySignResponse {
    type V = KeySignResponseView;

    open spec fn view(&self) -> KeySignResponseView {
        KeySignResponseView {
            signature: self.signature@,
            message: self.message@,
            pubkey: self.pubkey@,
        }
    }
}

/// The state of the service.
#[derive(Debug)]
pub struct HealthResponse {
    pub status: String,
    pub version: String,
}

/// What the signing of `message` with a looked-up key comes to. The message
/// is signed as its UTF-8 bytes, the signature is written in base58.
pub open spec fn signed(found: Option<KeyWithSecretView>, message: Seq<char>) -> Result<
    KeySignResponseView,
    ErrorKind,
> {
    match found {
        None => Err(ErrorKind::NotFound),
        Some(key) => if parse_chain(key.key.chain) is None {
            Err(ErrorKind::UnsupportedChain)
        } else if !keypair_accepted(key.secret) {
            Err(ErrorKind::Secret)
        } else {
            Ok(
                KeySignResponseView {
                    signature: base58(ed25519_signature(key.secret, encode_utf8(message))),
                    message,
                    pubkey: key.key.pubkey,
                },
            )
        },
    }
}

/// What the signing of `message` with the key that `lookup` names on `chain`
/// comes to, given the rows and the seed of the vault.
pub open spec fn sign_outcome(
    rows: Seq<KeyView>,
    seed: Option<Seq<u8>>,
    chain: Chain,
    lookup: LookupKeyView,
    message: Seq<char>,
) -> Result<KeySignResponseView, ErrorKind> {
    if chain == Chain::Unknown {
        Err(ErrorKind::UnsupportedChain)
    } else {
        match looked_up(rows, seed, chain_tag(chain), lookup) {
            Err(_) => Err(ErrorKind::Decryption),
            Ok(found) => signed(found, message),
        }
    }
}

/// What a signing owes: its outcome, but for a failure of the store itself,
/// which a reliable store never shows.
pub open spec fn sign_post(
    rows: Seq<KeyView>,
    seed: Option<Seq<u8>>,
    reliable: bool,
    chain: Chain,
    lookup: LookupKeyView,
    message: Seq<char>,
    r: Result<KeySignResponse, DatabaseError>,
) -> bool {
    match r {
        Ok(response) => sign_outcome(rows, seed, chain, lookup, message) matches Ok(v) && v
            == response@,
        Err(e) => if is_store_failure(e) {
            !reliable
        } else {
            sign_outcome(rows, seed, chain, lookup, message) matches Err(kind) && kind
                == e.kind_spec()
        },
    }
}

/// The row that is stored for the keypair `bytes` of a strategy, unclaimed or
/// as claimed at `used_at`.
pub open spec fn vault_row<S: KeypairStrategy>(
    bytes: Seq<u8>,
    suffix: Option<Seq<char>>,
    used_at: Option<int>,
) -> NewKeyView {
    NewKeyView { used_at, ..new_key_of::<S>(bytes, suffix) }
}

/// What the vaulting of the keypair `bytes` under an optional suffix owes:
/// the row of the keypair is stored as `create_key` stores it. Where no
/// suffix is given and the address has not the characters to make one, the
/// keypair is refused and the vault stays as it is.
pub open spec fn vault_post<S: KeypairStrategy>(
    bytes: Seq<u8>,
    suffix: Option<Seq<char>>,
    used_at: Option<int>,
    before: Seq<KeyView>,
    seed: Option<Seq<u8>>,
    reliable: bool,
    after: Seq<KeyView>,
    r: Result<Key, DatabaseError>,
) -> bool {
    if suffix is None && S::address_text(bytes).len() < SUFFIX_LEN {
        after == before && r matches Err(DatabaseError::SecretError(_))
    } else {
        &&& create_post(before, seed, vault_row::<S>(bytes, suffix, used_at), after, r)
        &&& reliable ==> !(r matches Err(e) && is_store_failure(e))
    }
}

/// Handler to get the liveness of the service.
pub fn get_health() -> (r: HealthResponse)
    ensures
        r.status@ == "ok"@,
        r.version@ == "0.1.0"@,
{
    HealthResponse { status: "ok".to_owned(), version: "0.1.0".to_owned() }
}

/// Claims a key of the requested chain and suffix.
pub fn get_suffix_key<D: KeyTrait>(db: &mut D, query: SuffixKeyGenRequest) -> (r: Result<
    Option<Key>,
    DatabaseError,
>)
    ensures
        final(db).seed() == old(db).seed(),
        claim_post(old(db).rows(), query.chain, query.suffix@, final(db).rows(), r),
        D::reliable() ==> !(r matches Err(e) && is_store_failure(e)),
{
    db.get_key_by_suffix(query.chain, query.suffix.as_str())
}

/// Vaults a keypair: its row is made, with the given suffix or else the last
/// characters of its address, unclaimed or as claimed at `used_at`, and
/// stored.
pub fn vault_keypair<D: KeyTrait, S: KeypairStrategy>(
    db: &mut D,
    keypair: &S,
    suffix: Option<String>,
    used_at: Option<i64>,
) -> (r: Result<Key, DatabaseError>)
    requires
        S::chain_of() != Chain::Unknown,
    ensures
        final(db).seed() == old(db).seed(),
        vault_post::<S>(
            keypair.key_bytes(),
            text_view(suffix),
            time_view(used_at),
            old(db).rows(),
            old(db).seed(),
            D::reliable(),
            final(db).rows(),
            r,
        ),
{
    match NewKey::checked_from_keypair(keypair, suffix) {
        Some(key) => {
            let mut key = key;
            key.set_used_at(used_at);
            db.create_key(key)
        },
        None => Err(
            DatabaseError::SecretError("the address is too short to make a suffix".to_owned()),
        ),
    }
}

/// Generates a new random keypair for the requested chain and vaults it under
/// the last characters of its address.
pub fn key_gen<D: KeyTrait>(db: &mut D, body: KeyGenRequest) -> (r: Result<Key, DatabaseError>)
    ensures
        final(db).seed() == old(db).seed(),
        exists|bytes: Seq<u8>|
            keypair_accepted(bytes) && #[trigger] vault_post::<SolanaKeyPair>(
                bytes,
                None,
                None,
                old(db).rows(),
                old(db).seed(),
                D::reliable(),
                final(db).rows(),
                r,
            ),
{
    let context = KeypairContext::from_chain(body.chain);
    vault_keypair(db, context.keypair(), None, None)
}

/// Signs a message with a key that was looked up with its secret laid open.
/// Without a key nothing is found to sign with; a key that is stored for no
/// known chain, or whose secret is no keypair, is refused.
pub fn sign_found(found: Option<KeyWithSecret>, message: String) -> (r: Result<
    KeySignResponse,
    DatabaseError,
>)
    ensures
        match signed(secret_view(found), message@) {
            Ok(response) => r matches Ok(v) && v@ == response,
            Err(kind) => r matches Err(e) && e.kind_spec() == kind,
        },
{
    match found {
        None => Err(DatabaseError::NotFound("Key not found".to_owned())),
        Some(key) => match Chain::from_str(key.key().chain()) {
            Err(_) => Err(
                DatabaseError::UnsupportedChain("the key is stored for an unknown chain".to_owned()),
            ),
            Ok(stored_chain) => {
                let context = KeypairContext::from_chain(stored_chain);
                let pubkey = key.key().pubkey().to_owned();
                match key.sign(context.keypair, message.as_str().as_bytes()) {
                    Ok(signature) => Ok(KeySignResponse { signature, message, pubkey }),
                    Err(e) => Err(e),
                }
            },
        },
    }
}

/// Signs a message with the vaulted key that `lookup` names. The vault stays
/// as it is, and the secret that was laid open is dropped with the call.
pub fn sign<D: KeyTrait>(db: &D, chain: Chain, lookup: LookupKey, message: String) -> (r: Result<
    KeySignResponse,
    DatabaseError,
>)
    ensures
        sign_post(db.rows(), db.seed(), D::reliable(), chain, lookup@, message@, r),
{
    let found = match &lookup {
        LookupKey::Pubkey(pubkey) => db.get_secret_by_pubkey(chain, pubkey.as_str()),
        LookupKey::Id(id) => db.get_secret_by_id(chain, *id),
    };
    match found {
        Err(e) => Err(e),
        Ok(found) => sign_found(found, message),
    }
}

/// Signs the requested message with the vaulted key of the requested public
/// key. The vault stays as it is.
pub fn key_sign<D: KeyTrait>(db: &D, body: KeySignRequest) -> (r: Result<
    KeySignResponse,
    DatabaseError,
>)
    ensures
        sign_post(
            db.rows(),
            db.seed(),
            D::reliable(),
            body.chain,
            LookupKeyView::Pubkey(body.pubkey@),
            body.message@,
            r,
        ),
{
    sign(db, body.chain, LookupKey::Pubkey(body.pubkey), body.message)
}

/// A key that was vaulted signs: once the keypair `bytes` of Solana is stored
/// in a vault that held no key of its public key yet, the signing of a
/// message for that public key comes to the signature of `bytes` on the
/// message, whether the vault has a seed or not.
pub proof fn lemma_vaulted_key_signs(
    bytes: Seq<u8>,
    suffix: Option<Seq<char>>,
    used_at: Option<int>,
    before: Seq<KeyView>,
    seed: Option<Seq<u8>>,
    reliable: bool,
    after: Seq<KeyView>,
    row: Key,
    message: Seq<char>,
)
    requires
        table_wf(before),
        keypair_accepted(bytes),
        vault_post::<SolanaKeyPair>(bytes, suffix, used_at, before, seed, reliable, after, Ok(row)),
        found(before, chain_tag(Chain::Solana), SolanaKeyPair::public_text(bytes))
            is None,
    ensures
        sign_outcome(
            after,
            seed,
            Chain::Solana,
            LookupKeyView::Pubkey(SolanaKeyPair::public_text(bytes)),
            message,
        ) == Ok::<KeySignResponseView, ErrorKind>(
            KeySignResponseView {
                signature: SolanaKeyPair::signature_text(bytes, encode_utf8(message)),
                message,
                pubkey: SolanaKeyPair::public_text(bytes),
            },
        ),
{
    let tag = chain_tag(Chain::Solana);
    let pubkey = SolanaKeyPair::public_text(bytes);
    let key = vault_row::<SolanaKeyPair>(bytes, suffix, used_at);
    let (stored, now) = choose|stored: Seq<u8>, now: int|
        kept_as(seed, key.secret, stored) && (after, Some(row@))
            == #[trigger] inserted(before, kept_row(key, stored), now);
    let wanted = rows_of_pubkey(tag, pubkey);
    let place = before.len() as int;
    assert(after == before.push(row@));
    assert forall|j: int| 0 <= j < place implies !wanted(#[trigger] after[j]) by {
        if wanted(before[j]) {
            lemma_some_row(before, wanted, j);
        }
    }
    assert(is_first(after, wanted, place));
    lemma_first_place_is(after, wanted, place);
    lemma_tag_round_trip(Chain::Solana);
}

/// Where `wanted` holds of some row, there is an earliest row of which it
/// holds.
proof fn lemma_some_row(rows: Seq<KeyView>, wanted: spec_fn(KeyView) -> bool, j: int)
    requires
        0 <= j < rows.len(),
        wanted(rows[j]),
    ensures
        first_row(rows, wanted) is Some,
    decreases j,
{
    if exists|k: int| 0 <= k < j && wanted(#[trigger] rows[k]) {
        let k = choose|k: int| 0 <= k < j && wanted(#[trigger] rows[k]);
        lemma_some_row(rows, wanted, k);
    } else {
        assert(is_first(rows, wanted, j));
    }
}

} // verus!
