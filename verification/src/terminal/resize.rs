//! The subscribers to terminal resizes, registered under bare numbers.
use vstd::prelude::*;

use crate::resize::{Handler, Subscribers};

verus! {

/// Registers `sender` as a subscriber under the number after the last and
/// returns that number, with whether it is the only subscriber.
pub fn register<T>(subscribers: &mut Subscribers<T>, sender: T) -> (r: (u32, bool))
    requires
        old(subscribers).wf(),
        old(subscribers).last() < u32::MAX,
    ensures
        final(subscribers).wf(),
        r.0 == old(subscribers).last() + 1,
        !old(subscribers).senders().contains_key(r.0),
        r.1 == (old(subscribers).senders().len() == 0),
        final(subscribers).last() == r.0,
        final(subscribers).senders() == old(subscribers).senders().insert(r.0, sender),
{
    let (handler, first) = crate::resize::register(subscribers, sender);
    (handler.0, first)
}

/// Removes the subscriber registered under `id`.
pub fn unregister<T>(subscribers: &mut Subscribers<T>, id: u32)
    requires
        old(subscribers).wf(),
    ensures
        final(subscribers).wf(),
        final(subscribers).last() == old(subscribers).last(),
        final(subscribers).senders() == old(subscribers).senders().remove(id),
{
    crate::resize::unregister(subscribers, Handler(id))
}

} // verus!
