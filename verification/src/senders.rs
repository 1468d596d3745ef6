//! The sender registry: a table from routing key to outbound channel, and
//! the handle that shares one such table between threads.

use futures::channel::mpsc::Sender;
use futures::channel::mpsc::TrySendError;
use parking_lot::lock_api::Mutex;
use parking_lot::lock_api::MutexGuard;
use parking_lot::RawMutex;
use std::collections::hash_map::Entry;
use std::collections::HashMap;
use std::sync::Arc;
use vstd::prelude::*;

verus! {

broadcast use vstd::std_specs::hash::group_hash_axioms;

/// The sending half of a bounded channel of `futures::channel::mpsc`.
/// Nothing is known of what is inside one.
#[verifier::external_type_specification]
#[verifier::external_body]
#[verifier::reject_recursive_types(T)]
pub struct ExSender<T>(Sender<T>);

/// The error of `futures::channel::mpsc::Sender::try_send`: the channel was
/// full, or its receiver is gone.
#[verifier::external_type_specification]
#[verifier::external_body]
#[verifier::reject_recursive_types(T)]
pub struct ExTrySendError<T>(TrySendError<T>);

/// The mutex of `lock_api`, which `parking_lot` instantiates with its raw
/// lock.
#[verifier::external_type_specification]
#[verifier::external_body]
#[verifier::reject_recursive_types(R)]
#[verifier::reject_recursive_types(T)]
pub struct ExMutex<R, T: ?Sized>(Mutex<R, T>);

/// The raw lock of `parking_lot`.
#[verifier::external_type_specification]
#[verifier::external_body]
pub struct ExRawMutex(RawMutex);

/// The guard that `lock_api::Mutex::lock` returns. While it lives, this
/// thread alone reads and writes the table; dropping it unlocks.
#[verifier::external_body]
struct TableGuard<'a> {
    guard: MutexGuard<'a, RawMutex, SenderTable>,
}

/// What one attempt to deliver a message came to.
#[derive(Clone, Copy, Debug, PartialEq, Eq, Structural)]
pub enum Delivery {
    /// The channel took the message.
    Delivered,
    /// No sender is registered under the routing key.
    NoDestination,
    /// The channel is full, or its receiver is gone.
    Rejected,
}

impl Delivery {
    /// The outcome that the result of a send stands for.
    pub fn of_send(sent: Result<(), TrySendError<(u8, String)>>) -> (outcome: Delivery)
        ensures
            outcome == (match sent {
                Ok(_) => Delivery::Delivered,
                Err(_) => Delivery::Rejected,
            }),
    {
        match sent {
            Ok(_) => Delivery::Delivered,
            Err(_) => Delivery::Rejected,
        }
    }
}

/// `futures::channel::mpsc::Sender::try_send`: offers one message to the
/// channel and returns at once. Whether the channel takes it depends on its
/// free capacity and on the receiver, so nothing is claimed of the result.
#[verifier::external_body]
fn channel_try_send(sender: &mut Sender<(u8, String)>, message: (u8, String)) -> (sent: Result<
    (),
    TrySendError<(u8, String)>,
>) {
    sender.try_send(message)
}

/// A table from routing key to sender, with at most one sender per key.
#[derive(Debug)]
pub struct SenderTable {
    map: HashMap<u64, Sender<(u8, String)>>,
}

impl View for SenderTable {
    type V = Map<u64, Sender<(u8, String)>>;

    closed spec fn view(&self) -> Self::V {
        self.map@
    }
}

impl SenderTable {
    /// A table that holds no sender.
    pub fn new() -> (table: Self)
        ensures
            table@ == Map::<u64, Sender<(u8, String)>>::empty(),
    {
        SenderTable { map: HashMap::new() }
    }

    /// Installs `sender` under `id`. A sender that was registered under
    /// `id` before is replaced and no longer reachable from the table.
    pub fn insert(&mut self, id: u64, sender: Sender<(u8, String)>)
        ensures
            final(self)@ == old(self)@.insert(id, sender),
    {
        self.map.insert(id, sender);
    }

    /// Offers `message` to the sender registered under `id`, without
    /// waiting.
    ///
    /// The keys stay as they are, and so does every sender under another
    /// key. Without a sender under `id` nothing changes at all, and only
    /// then is the outcome `NoDestination`.
    pub fn get_and_try_send(&mut self, id: u64, message: (u8, String)) -> (outcome: Delivery)
        ensures
            final(self)@.dom() == old(self)@.dom(),
            forall|k: u64|
                k != id && old(self)@.contains_key(k) ==> #[trigger] final(self)@[k] == old(
                    self,
                )@[k],
            !old(self)@.contains_key(id) ==> final(self)@ == old(self)@,
            outcome == Delivery::NoDestination <==> !old(self)@.contains_key(id),
    {
        match self.map.entry(id) {
            Entry::Occupied(mut slot) => {
                let sender = slot.get_mut();
                let sent = channel_try_send(sender, message);
                Delivery::of_send(sent)
            },
            Entry::Vacant(_) => Delivery::NoDestination,
        }
    }

    /// Whether a sender is registered under `id`.
    pub fn contains(&self, id: u64) -> (found: bool)
        ensures
            found == self@.contains_key(id),
    {
        self.map.contains_key(&id)
    }

    /// The number of registered senders.
    pub fn len(&self) -> (n: usize)
        ensures
            n == self@.len(),
    {
        self.map.len()
    }
}

impl Default for SenderTable {
    fn default() -> (table: Self)
        ensures
            table@ == Map::<u64, Sender<(u8, String)>>::empty(),
    {
        SenderTable::new()
    }
}

/// The table that a mutex was created around. It says where the mutex
/// started, not what it holds now: that is whatever its users left there.
pub uninterp spec fn initial_table(shared: Mutex<RawMutex, SenderTable>) -> Map<
    u64,
    Sender<(u8, String)>,
>;

/// `lock_api::Mutex::new`: a new, unlocked mutex that holds `table`.
#[verifier::external_body]
fn new_mutex(table: SenderTable) -> (shared: Mutex<RawMutex, SenderTable>)
    ensures
        initial_table(shared) == table@,
{
    Mutex::new(table)
}

/// `std::sync::Arc::clone`: one more handle on the same mutex.
#[verifier::external_body]
fn share_mutex(shared: &Arc<Mutex<RawMutex, SenderTable>>) -> (other: Arc<
    Mutex<RawMutex, SenderTable>,
>)
    ensures
        other == *shared,
{
    Arc::clone(shared)
}

/// `lock_api::Mutex::lock`: waits until no other thread holds the lock and
/// takes it. The table that the guard then gives access to is whatever the
/// last holder left there, so nothing is claimed of it. A thread that
/// already holds the guard must not lock again; no guard leaves this module.
#[verifier::external_body]
fn lock_table<'a>(shared: &'a Mutex<RawMutex, SenderTable>) -> (guard: TableGuard<'a>) {
    TableGuard { guard: shared.lock() }
}

/// `DerefMut::deref_mut` of the guard: the table that the mutex protects.
#[verifier::external_body]
fn guarded_table<'a, 'b>(guard: &'a mut TableGuard<'b>) -> (table: &'a mut SenderTable) {
    &mut *guard.guard
}

/// A handle on a sender table that threads share. Every clone of a handle
/// reaches the same table; each operation holds the table's lock for one
/// table operation and never waits for a channel.
#[derive(Debug)]
pub struct Senders(Arc<Mutex<RawMutex, SenderTable>>);

impl Senders {
    /// The table that this registry was created with. Every clone of the
    /// handle has the same one.
    pub closed spec fn initial(&self) -> Map<u64, Sender<(u8, String)>> {
        initial_table(*self.0)
    }

    /// A handle on a new table of its own, which starts without any sender.
    pub fn new() -> (senders: Self)
        ensures
            senders.initial() == Map::<u64, Sender<(u8, String)>>::empty(),
    {
        Senders(Arc::new(new_mutex(SenderTable::new())))
    }

    /// Installs or replaces the sender for `id` in the shared table.
    pub fn insert(&self, id: u64, sender: Sender<(u8, String)>) {
        let mut guard = lock_table(&self.0);
        let table = guarded_table(&mut guard);
        table.insert(id, sender);
    }

    /// Offers `message` to the sender that the shared table holds for `id`
    /// at this moment.
    pub fn get_and_try_send(&self, id: u64, message: (u8, String)) -> Delivery {
        let mut guard = lock_table(&self.0);
        let table = guarded_table(&mut guard);
        table.get_and_try_send(id, message)
    }
}

impl Clone for Senders {
    /// Another handle on the same table.
    fn clone(&self) -> (other: Self)
        ensures
            other == *self,
    {
        Senders(share_mutex(&self.0))
    }
}

impl Default for Senders {
    fn default() -> Self {
        Senders::new()
    }
}

} // verus!
