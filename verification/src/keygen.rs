//! The search for a keypair whose address ends with a wanted suffix.
//!
//! Workers draw random keypairs side by side. They share a flag, which the
//! first to find a match raises, and a channel, on which the one that raised
//! the flag sends the secret of its find. The others see the flag and stop.

use vstd::prelude::*;
use rayon::iter::{IntoParallelIterator, ParallelIterator};
use std::sync::atomic::{AtomicBool, Ordering};
use std::sync::mpsc::{Receiver, Sender};
use crate::chain::Chain;
use crate::context::KeypairContext;
use crate::keypair::KeypairStrategy;
use crate::solana::{keypair_of_secret, SolanaKeyPair};
use crate::text::{ends_with, ends_with_spec};

verus! {

/// Draws that a worker makes where the caller sets no limit.
pub const UNLIMITED: u64 = u64::MAX;

/// The address of the keypair `bytes` ends with `suffix`.
pub open spec fn is_vanity(bytes: Seq<u8>, suffix: Seq<char>) -> bool {
    ends_with_spec(SolanaKeyPair::address_text(bytes), suffix)
}

/// What a search owes where it returns a keypair: the keypair is one of the
/// chain that was asked for, and its address ends with the suffix.
pub open spec fn is_find(context: KeypairContext, chain: Chain, suffix: Seq<char>) -> bool {
    &&& context.chain == chain
    &&& SolanaKeyPair::accepts(context.keypair.key_bytes())
    &&& is_vanity(context.keypair.key_bytes(), suffix)
}

/// `std::sync::mpsc::Sender`: the sending end of a channel, carried through
/// as it is.
#[verifier::external_type_specification]
#[verifier::external_body]
#[verifier::reject_recursive_types(T)]
pub struct ExSender<T>(Sender<T>);

/// `std::sync::mpsc::Receiver`: the receiving end of a channel, carried
/// through as it is.
#[verifier::external_type_specification]
#[verifier::external_body]
#[verifier::reject_recursive_types(T)]
pub struct ExReceiver<T>(Receiver<T>);

/// `std::sync::mpsc::channel`: a new channel, as its two ends.
#[verifier::external_body]
fn channel() -> (r: (Sender<String>, Receiver<String>)) {
    std::sync::mpsc::channel()
}

/// `Sender::send`: whether the value was taken, which it is as long as the
/// receiving end is there.
#[verifier::external_body]
fn send(sender: &Sender<String>, secret: String) -> (r: bool) {
    sender.send(secret).is_ok()
}

/// `Receiver::recv`: the first value that was sent, or nothing where none was
/// sent and no sending end is left.
#[verifier::external_body]
fn receive(receiver: Receiver<String>) -> (r: Option<String>) {
    receiver.recv().ok()
}

/// `ParallelIterator::for_each` over the workers' numbers: runs `worker` once
/// for each of them, in parallel, and returns when all have returned. The
/// sending end of the channel is given up with the call.
#[verifier::external_body]
fn run_workers(
    workers: u32,
    found: &AtomicBool,
    sender: Sender<String>,
    chain: Chain,
    target_suffix: &str,
    attempts: u64,
) {
    (0..workers).into_par_iter().for_each(
        |_| worker(found, &sender, chain, target_suffix, attempts),
    );
}

/// Keeps a keypair whose address ends with the suffix and drops every other.
pub fn examine(context: KeypairContext, target_suffix: &str) -> (r: Option<KeypairContext>)
    ensures
        r is Some <==> is_vanity(context.keypair.key_bytes(), target_suffix@),
        r matches Some(kept) ==> kept == context,
{
    let address = context.keypair.address();
    if ends_with(address.as_str(), target_suffix) {
        Some(context)
    } else {
        None
    }
}

/// One worker: draws keypairs until one matches, the flag is raised, or the
/// draws are used up. On a match it tries to raise the flag; if it is the one
/// to raise it, it sends the secret of its find.
fn worker(
    found: &AtomicBool,
    sender: &Sender<String>,
    chain: Chain,
    target_suffix: &str,
    attempts: u64,
) {
    let mut left = attempts;
    while left > 0 && !found.load(Ordering::Relaxed)
        decreases left,
    {
        left = left - 1;
        match examine(KeypairContext::from_chain(chain), target_suffix) {
            Some(find) => {
                if found.compare_exchange(false, true, Ordering::SeqCst, Ordering::Relaxed).is_ok() {
                    send(sender, find.keypair.secret());
                }
                return ;
            },
            None => {},
        }
    }
}

/// Reads the secret that a search delivered and keeps the keypair if it is a
/// find: a keypair whose address ends with the suffix.
pub fn accept(secret: &str, target_suffix: &str, chain: Chain) -> (r: Option<KeypairContext>)
    ensures
        r matches Some(context) ==> is_find(context, chain, target_suffix@),
        r is Some <==> (keypair_of_secret(secret@) matches Some(bytes) && is_vanity(
            bytes,
            target_suffix@,
        )),
        r matches Some(context) ==> Some(context.keypair.key_bytes())
            == keypair_of_secret(secret@),
{
    match KeypairContext::from_secret(chain, secret) {
        Ok(context) => examine(context, target_suffix),
        Err(_) => None,
    }
}

/// Searches with `workers` parallel workers, each of which makes at most
/// `attempts` draws, for a keypair of `chain` whose address ends with
/// `target_suffix`. Returns nothing where no worker found one.
pub fn search(chain: Chain, target_suffix: &str, workers: u32, attempts: u64) -> (r: Option<
    KeypairContext,
>)
    ensures
        r matches Some(context) ==> is_find(context, chain, target_suffix@),
{
    let found = AtomicBool::new(false);
    let (sender, receiver) = channel();
    run_workers(workers, &found, sender, chain, target_suffix, attempts);
    match receive(receiver) {
        Some(secret) => accept(secret.as_str(), target_suffix, chain),
        None => None,
    }
}

/// Key blockchain generator: searches with `num_threads` workers, without a
/// limit on their draws, for a keypair of `chain` whose address ends with
/// `target_suffix`.
pub fn keygen(num_threads: u8, target_suffix: &str, chain: Chain) -> (r: Option<KeypairContext>)
    ensures
        r matches Some(context) ==> is_find(context, chain, target_suffix@),
{
    search(chain, target_suffix, u32::from(num_threads), UNLIMITED)
}

/// Key generator: searches for a Solana keypair whose address ends with
/// `target_suffix` and returns its secret string.
pub fn generator(num_threads: u32, target_suffix: &str) -> (r: Option<String>)
    ensures
        r matches Some(secret) ==> exists|bytes: Seq<u8>|
            SolanaKeyPair::accepts(bytes) && is_vanity(bytes, target_suffix@) && secret@
                == #[trigger] SolanaKeyPair::secret_text(bytes),
{
    match search(Chain::Solana, target_suffix, num_threads, UNLIMITED) {
        Some(context) => Some(context.keypair.secret()),
        None => None,
    }
}

/// The same search as `generator`.
pub fn generator_v1(num_threads: u32, target_suffix: &str) -> (r: Option<String>)
    ensures
        r matches Some(secret) ==> exists|bytes: Seq<u8>|
            SolanaKeyPair::accepts(bytes) && is_vanity(bytes, target_suffix@) && secret@
                == #[trigger] SolanaKeyPair::secret_text(bytes),
{
    generator(num_threads, target_suffix)
}

} // verus!
