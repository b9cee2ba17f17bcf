//! The event registry: which interactions have a task waiting for their
//! follow-up event, and how an event reaches that task.
//!
//! Each interaction identifier is `Unregistered` (absent), then
//! `Registered`, then gone again for good: either its event was delivered
//! or the registration expired. A registration holds the sending half of
//! a one-shot channel; the waiting task holds the receiving half and
//! sees either the event or, when the sending half is dropped, a closed
//! channel.
//!
//! Registering an identifier that is already registered replaces the
//! earlier registration: its sending half is dropped, so the earlier
//! waiter observes cancellation and only the latest one can be reached.
//!
//! The methods that change the registry take it by exclusive reference,
//! and their contracts describe the registry before and after the call.

use dashmap::DashMap;
use tokio::sync::oneshot::error::RecvError;
use tokio::sync::oneshot::{channel, Receiver, Sender};
use vstd::prelude::*;

verus! {

/// A follow-up event: the user who acted and the index of the choice
/// made.
pub type Event = (u64, usize);

/// `dashmap::DashMap`, the map that holds the waiters. What it holds is
/// known only through `keys`.
#[verifier::external_type_specification]
#[verifier::external_body]
#[verifier::reject_recursive_types(K)]
#[verifier::reject_recursive_types(V)]
#[verifier::reject_recursive_types(S)]
pub struct ExDashMap<K, V, S>(DashMap<K, V, S>);

/// `tokio::sync::oneshot::Sender`, the sending half of a one-shot
/// channel. Nothing is known of a value of it.
#[verifier::external_type_specification]
#[verifier::external_body]
#[verifier::reject_recursive_types(T)]
pub struct ExSender<T>(Sender<T>);

/// `tokio::sync::oneshot::Receiver`, the receiving half of a one-shot
/// channel. Nothing is known of a value of it.
#[verifier::external_type_specification]
#[verifier::external_body]
#[verifier::reject_recursive_types(T)]
pub struct ExReceiver<T>(Receiver<T>);

/// `tokio::sync::oneshot::error::RecvError`, what a waiter gets when its
/// channel is closed without a value.
#[verifier::external_type_specification]
#[verifier::external_body]
pub struct ExRecvError(RecvError);

/// The keys that a map of waiters holds.
pub uninterp spec fn keys(map: DashMap<u64, Sender<(u64, usize)>>) -> Set<u64>;

/// `DashMap::new`: a map without entries.
#[verifier::external_body]
fn map_new() -> (map: DashMap<u64, Sender<Event>>)
    ensures
        keys(map) == Set::<u64>::empty(),
{
    DashMap::new()
}

/// `DashMap::insert`: afterwards the map holds `key`; the value that
/// `key` had before, if any, is handed back. No other key is touched.
#[verifier::external_body]
fn map_insert(map: &mut DashMap<u64, Sender<Event>>, key: u64, value: Sender<Event>) -> (previous:
    Option<Sender<Event>>)
    ensures
        keys(*final(map)) == keys(*old(map)).insert(key),
        previous is Some <==> keys(*old(map)).contains(key),
{
    map.insert(key, value)
}

/// `DashMap::remove`: afterwards the map does not hold `key`; the value
/// that `key` had, if any, is handed back. No other key is touched.
#[verifier::external_body]
fn map_remove(map: &mut DashMap<u64, Sender<Event>>, key: u64) -> (removed: Option<Sender<Event>>)
    ensures
        keys(*final(map)) == keys(*old(map)).remove(key),
        removed is Some <==> keys(*old(map)).contains(key),
{
    map.remove(&key).map(|entry| entry.1)
}

/// `DashMap::contains_key`.
#[verifier::external_body]
fn map_contains(map: &DashMap<u64, Sender<Event>>, key: u64) -> (found: bool)
    ensures
        found == keys(*map).contains(key),
{
    map.contains_key(&key)
}

/// `tokio::sync::oneshot::channel`: the two halves of a fresh one-shot
/// channel.
#[verifier::external_body]
fn open_channel() -> (halves: (Sender<Event>, Receiver<Event>)) {
    channel()
}

/// `tokio::sync::oneshot::Sender::send`: hands `event` to the receiving
/// half and uses up the sending half. Tells whether the receiving half
/// was still there to take it.
#[verifier::external_body]
fn send_event(sender: Sender<Event>, event: Event) -> (taken: bool) {
    sender.send(event).is_ok()
}

/// The registered identifiers after `register(id)`.
pub open spec fn after_register(registered: Set<u64>, id: u64) -> Set<u64> {
    registered.insert(id)
}

/// Whether `dispatch(id, ..)` finds a waiter.
pub open spec fn finds_waiter(registered: Set<u64>, id: u64) -> bool {
    registered.contains(id)
}

/// The registered identifiers after `dispatch(id, ..)` or `expire(id)`.
pub open spec fn after_removal(registered: Set<u64>, id: u64) -> Set<u64> {
    registered.remove(id)
}

/// Correlates interaction identifiers with the tasks waiting for them.
pub struct Registry {
    waiters: DashMap<u64, Sender<Event>>,
}

impl Registry {
    /// The identifiers that currently have a waiter.
    pub closed spec fn registered(&self) -> Set<u64> {
        keys(self.waiters)
    }

    /// A registry without registrations.
    pub fn new() -> (out: Registry)
        ensures
            out.registered() == Set::<u64>::empty(),
    {
        Registry { waiters: map_new() }
    }

    /// Whether `id` has a waiter.
    pub fn is_registered(&self, id: u64) -> (out: bool)
        ensures
            out == self.registered().contains(id),
    {
        map_contains(&self.waiters, id)
    }

    /// Registers a waiter for `id` and hands back the receiving half of
    /// its channel. An earlier registration of `id` is replaced and its
    /// waiter cancelled; all other registrations stay.
    pub fn register(&mut self, id: u64) -> (receiver: Receiver<Event>)
        ensures
            final(self).registered() == after_register(old(self).registered(), id),
    {
        let (sender, receiver) = open_channel();
        let _abandoned = map_insert(&mut self.waiters, id, sender);
        receiver
    }

    /// Delivers `event` to the waiter of `id` and ends the registration.
    /// Tells whether there was a waiter; without one nothing happens.
    pub fn dispatch(&mut self, id: u64, event: Event) -> (found: bool)
        ensures
            found == finds_waiter(old(self).registered(), id),
            final(self).registered() == after_removal(old(self).registered(), id),
    {
        let removed = map_remove(&mut self.waiters, id);
        Registry::deliver(removed, event)
    }

    /// Hands `event` to a waiter taken out of the registry. Tells whether
    /// there was one, whether or not it still listens.
    pub fn deliver(waiter: Option<Sender<Event>>, event: Event) -> (found: bool)
        ensures
            found == waiter is Some,
    {
        match waiter {
            Some(sender) => {
                let _taken = send_event(sender, event);
                true
            },
            None => false,
        }
    }

    /// Ends the registration of `id` without delivering anything; its
    /// waiter observes a closed channel. Tells whether there was a
    /// registration.
    pub fn expire(&mut self, id: u64) -> (found: bool)
        ensures
            found == finds_waiter(old(self).registered(), id),
            final(self).registered() == after_removal(old(self).registered(), id),
    {
        let removed = map_remove(&mut self.waiters, id);
        removed.is_some()
    }
}

/// Dispatching to an identifier without a registration finds no waiter
/// and leaves the registry as it was.
pub proof fn lemma_dispatch_unregistered(registered: Set<u64>, id: u64)
    requires
        !registered.contains(id),
    ensures
        !finds_waiter(registered, id),
        after_removal(registered, id) == registered,
{
    assert(registered.remove(id) =~= registered);
}

/// After `register`, the first dispatch to the same identifier finds the
/// waiter and every later one finds none: the event is delivered exactly
/// once.
pub proof fn lemma_register_then_dispatch(registered: Set<u64>, id: u64)
    ensures
        finds_waiter(after_register(registered, id), id),
        !finds_waiter(after_removal(after_register(registered, id), id), id),
{
}

/// After `expire`, a dispatch to the same identifier does not deliver.
pub proof fn lemma_expire_then_dispatch(registered: Set<u64>, id: u64)
    ensures
        !finds_waiter(after_removal(registered, id), id),
{
}

/// Registering twice leaves one registration, as registering once does.
pub proof fn lemma_register_replaces(registered: Set<u64>, id: u64)
    ensures
        after_register(after_register(registered, id), id) == after_register(registered, id),
        !finds_waiter(
            after_removal(after_register(after_register(registered, id), id), id),
            id,
        ),
{
    assert(registered.insert(id).insert(id) =~= registered.insert(id));
}

/// What happens to one identifier leaves every other one as it was.
pub proof fn lemma_identifiers_independent(registered: Set<u64>, id: u64, other: u64)
    requires
        other != id,
    ensures
        finds_waiter(after_register(registered, id), other) == finds_waiter(registered, other),
        finds_waiter(after_removal(registered, id), other) == finds_waiter(registered, other),
{
}

} // verus!
