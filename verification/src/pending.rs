//! The table of calls that wait for an answer.
//!
//! Each entry is the sending end of a one-shot channel, kept under the id of
//! the call. Resolving an id takes its entry out of the table and sends the
//! value through it, so an entry is fulfilled at most once; an entry that is
//! dropped with the table leaves its caller with a closed channel.

use std::collections::HashMap;
use tokio::sync::oneshot::{Receiver, Sender};
use vstd::prelude::*;

verus! {

broadcast use vstd::std_specs::hash::group_hash_axioms;

/// An answer on its way to a caller: the payload of a response, with the
/// sending end that was kept under the id that the response names.
#[derive(Debug)]
pub struct Delivery {
    /// The id of the call that is answered.
    pub id: u64,
    /// The sending end that the call registered.
    pub sender: Sender<serde_json::Value>,
    /// What the caller is to receive.
    pub payload: serde_json::Value,
}

impl Delivery {
    /// Sends the payload through the sending end. Where the receiving end
    /// is gone, so that nobody can take the payload, it is handed back.
    pub fn send(self) -> (sent: Result<(), serde_json::Value>)
        ensures
            sent matches Err(returned) ==> returned == self.payload,
    {
        crate::channel::send(self.sender, self.payload)
    }
}

/// The calls that wait for an answer, by id.
#[derive(Debug)]
pub struct PendingTable {
    slots: HashMap<u64, Sender<serde_json::Value>>,
}

impl View for PendingTable {
    type V = Map<u64, Sender<serde_json::Value>>;

    /// The sending end that is kept for each waiting id.
    closed spec fn view(&self) -> Map<u64, Sender<serde_json::Value>> {
        self.slots@
    }
}

impl PendingTable {
    /// A table in which no call waits.
    pub fn new() -> (table: PendingTable)
        ensures
            table@ == Map::<u64, Sender<serde_json::Value>>::empty(),
    {
        PendingTable { slots: HashMap::new() }
    }

    /// Whether a call waits under this id.
    pub fn is_pending(&self, id: u64) -> (waiting: bool)
        ensures
            waiting == self@.contains_key(id),
    {
        self.slots.contains_key(&id)
    }

    /// The number of calls that wait.
    pub fn len(&self) -> (count: usize)
        ensures
            count == self@.len(),
    {
        self.slots.len()
    }

    /// Keeps the sending end of a channel under `id` and hands the end to
    /// await back. An entry that was kept under `id` before is dropped. All
    /// other entries stay as they are.
    pub fn keep(
        &mut self,
        id: u64,
        sender: Sender<serde_json::Value>,
        receiver: Receiver<serde_json::Value>,
    ) -> (kept: Receiver<serde_json::Value>)
        ensures
            final(self)@ == old(self)@.insert(id, sender),
            kept == receiver,
    {
        self.slots.insert(id, sender);
        receiver
    }

    /// Opens a channel, keeps its sending end under `id` and returns the end
    /// to await. An entry that was kept under `id` before is dropped. All
    /// other entries stay as they are.
    pub fn register(&mut self, id: u64) -> (receiver: Receiver<serde_json::Value>)
        ensures
            final(self)@ == old(self)@.insert(id, final(self)@[id]),
    {
        let (sender, receiver) = crate::channel::open();
        self.keep(id, sender, receiver)
    }

    /// Takes the entry of `id` out of the table and pairs it with the value
    /// that is to go through it. Where no call waits under `id` there is
    /// nothing to pair, and the value is dropped.
    pub fn claim(&mut self, id: u64, payload: serde_json::Value) -> (claimed: Option<Delivery>)
        ensures
            final(self)@ == old(self)@.remove(id),
            match claimed {
                Some(delivery) => {
                    &&& old(self)@.contains_key(id)
                    &&& delivery.id == id
                    &&& delivery.sender == old(self)@[id]
                    &&& delivery.payload == payload
                },
                None => !old(self)@.contains_key(id) && final(self)@ == old(self)@,
            },
    {
        match self.slots.remove(&id) {
            Some(sender) => Some(Delivery { id, sender, payload }),
            None => {
                None
            },
        }
    }

    /// Answers the call that waits under `id`: takes its entry out of the
    /// table and sends `value` through it. Says whether a call waited there;
    /// a value for an id under which none waits is dropped, and the table
    /// stays as it is.
    pub fn resolve(&mut self, id: u64, value: serde_json::Value) -> (found: bool)
        ensures
            found == old(self)@.contains_key(id),
            final(self)@ == old(self)@.remove(id),
            !found ==> final(self)@ == old(self)@,
    {
        match self.claim(id, value) {
            Some(delivery) => {
                let _ = delivery.send();
                true
            },
            None => false,
        }
    }
}

} // verus!
