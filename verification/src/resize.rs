//! The subscribers to terminal resizes.
use std::collections::HashMap;

use vstd::prelude::*;

verus! {

broadcast use vstd::std_specs::hash::group_hash_axioms;

/// A registered resize handler.
#[derive(Clone, Copy, Debug, PartialEq, Eq, Structural)]
pub struct Handler(pub u32);

/// The subscribers to resizes, each under the number it was registered with.
pub struct Subscribers<T> {
    last: u32,
    senders: HashMap<u32, T>,
}

impl<T> Subscribers<T> {
    /// The number the last subscriber was registered with, 0 before the first.
    pub closed spec fn last(&self) -> u32 {
        self.last
    }

    /// The subscribers, by number.
    pub closed spec fn senders(&self) -> Map<u32, T> {
        self.senders@
    }

    /// Every subscriber is registered under a number up to the last.
    pub closed spec fn wf(&self) -> bool {
        forall|id: u32| #[trigger] self.senders@.contains_key(id) ==> 1 <= id <= self.last
    }

    /// No subscribers.
    pub fn new() -> (r: Subscribers<T>)
        ensures
            r.wf(),
            r.last() == 0,
            r.senders() == Map::<u32, T>::empty(),
    {
        Subscribers { last: 0, senders: HashMap::new() }
    }

    /// The number the last subscriber was registered with, 0 before the first.
    pub fn last_id(&self) -> (r: u32)
        ensures
            r == self.last(),
    {
        self.last
    }

    /// Whether there are no subscribers.
    pub fn is_empty(&self) -> (r: bool)
        ensures
            r == (self.senders().len() == 0),
    {
        self.senders.is_empty()
    }

    /// The subscribers, by number.
    pub fn subscribers(&self) -> (r: &HashMap<u32, T>)
        ensures
            r@ == self.senders(),
    {
        &self.senders
    }
}

/// Registers `sender` as a subscriber under the number after the last. The
/// flag tells whether it is the only subscriber, so that the signal handler
/// that notifies subscribers is to be installed.
pub fn register<T>(subscribers: &mut Subscribers<T>, sender: T) -> (r: (Handler, bool))
    requires
        old(subscribers).wf(),
        old(subscribers).last() < u32::MAX,
    ensures
        final(subscribers).wf(),
        r.0.0 == old(subscribers).last() + 1,
        !old(subscribers).senders().contains_key(r.0.0),
        r.1 == (old(subscribers).senders().len() == 0),
        final(subscribers).last() == r.0.0,
        final(subscribers).senders() == old(subscribers).senders().insert(r.0.0, sender),
{
    let id = subscribers.last + 1;
    let first = subscribers.senders.is_empty();
    subscribers.last = id;
    subscribers.senders.insert(id, sender);
    (Handler(id), first)
}

/// Removes the subscriber registered under `id`.
pub fn unregister<T>(subscribers: &mut Subscribers<T>, id: Handler)
    requires
        old(subscribers).wf(),
    ensures
        final(subscribers).wf(),
        final(subscribers).last() == old(subscribers).last(),
        final(subscribers).senders() == old(subscribers).senders().remove(id.0),
{
    subscribers.senders.remove(&id.0);
}

/// Unregistering the handler that a registration returned, with nothing
/// else in between, leaves the subscribers as they were before it.
pub proof fn lemma_register_then_unregister<T>(
    before: Subscribers<T>,
    registered: Subscribers<T>,
    after: Subscribers<T>,
    handler: Handler,
    sender: T,
)
    requires
        before.wf(),
        handler.0 == before.last() + 1,
        registered.senders() == before.senders().insert(handler.0, sender),
        after.senders() == registered.senders().remove(handler.0),
    ensures
        after.senders() == before.senders(),
{
    assert(!before.senders().contains_key(handler.0));
    assert(after.senders() =~= before.senders());
}

/// Registrations hand out increasing numbers: a later registration's
/// number is above every number registered before it.
pub proof fn lemma_numbers_increase<T>(before: Subscribers<T>, after: Subscribers<T>, id: u32)
    requires
        before.wf(),
        after.wf(),
        before.last() <= after.last(),
        id == after.last() + 1,
    ensures
        forall|old_id: u32| #[trigger] before.senders().contains_key(old_id) ==> old_id < id,
        !after.senders().contains_key(id),
{
}

} // verus!
