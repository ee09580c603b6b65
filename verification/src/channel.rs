//! Event channels: the conduits that decouple the ingestion thread from
//! the viewer.
//!
//! Two independent unbounded first-in-first-out channels carry the typed
//! events, one for log entries and one for detected mod records. The
//! cross-thread transport is crossbeam's channel, reached through the
//! trusted items below. `EventChannel` is the verified single-owner model
//! of such a conduit; the drain protocol — empty the queue completely into
//! the store, once per frame — is stated and proved against it.

use std::collections::VecDeque;

use vstd::prelude::*;

verus! {

#[verifier::external_type_specification]
#[verifier::external_body]
#[verifier::reject_recursive_types(T)]
pub struct ExSender<T>(crossbeam_channel::Sender<T>);

#[verifier::external_type_specification]
#[verifier::external_body]
#[verifier::reject_recursive_types(T)]
pub struct ExReceiver<T>(crossbeam_channel::Receiver<T>);

/// Relies on `crossbeam_channel::Sender::send`: the message is accepted
/// unless every receiver is gone (the library's channels are unbounded,
/// so its sends never wait for room); whether receivers remain depends
/// on the other threads, so nothing is promised of the outcome. Returns
/// whether the message was accepted.
#[verifier::external_body]
pub fn channel_send<T>(sender: &crossbeam_channel::Sender<T>, value: T) -> bool {
    sender.send(value).is_ok()
}

/// Relies on `crossbeam_channel::Receiver::len`: how many messages were
/// pending at the moment of the call; more may arrive at any time, so
/// nothing is promised of the outcome.
#[verifier::external_body]
pub fn channel_len<T>(receiver: &crossbeam_channel::Receiver<T>) -> usize {
    receiver.len()
}

/// Relies on `crossbeam_channel::Receiver::try_recv`: hands back the next
/// pending message without blocking, or nothing when the channel is empty
/// or disconnected; what is pending depends on the sending thread, so
/// nothing is promised of the outcome.
#[verifier::external_body]
pub fn channel_try_recv<T>(receiver: &crossbeam_channel::Receiver<T>) -> Option<T> {
    receiver.try_recv().ok()
}

/// Single-owner model of one unbounded, ordered event conduit: what the
/// ingestion side has published and the viewer has not yet drained, oldest
/// first.
pub struct EventChannel<T> {
    items: VecDeque<T>,
}

impl<T> View for EventChannel<T> {
    type V = Seq<T>;

    closed spec fn view(&self) -> Seq<T> {
        self.items@
    }
}

impl<T> EventChannel<T> {
    /// A fresh channel with nothing pending.
    pub fn new() -> (channel: EventChannel<T>)
        ensures
            channel@ == Seq::<T>::empty(),
    {
        let channel = EventChannel { items: VecDeque::new() };
        proof {
            assert(channel@ =~= Seq::<T>::empty());
        }
        channel
    }

    /// How many events are pending.
    pub fn len(&self) -> (n: usize)
        ensures
            n == self@.len(),
    {
        self.items.len()
    }

    /// Publish one event at the back of the queue.
    pub fn publish(&mut self, value: T)
        ensures
            final(self)@ == old(self)@.push(value),
    {
        self.items.push_back(value);
    }

    /// Take the oldest pending event, or nothing when the queue is empty.
    pub fn try_take(&mut self) -> (r: Option<T>)
        ensures
            match r {
                Some(value) => {
                    &&& old(self)@.len() > 0
                    &&& value == old(self)@[0]
                    &&& final(self)@ == old(self)@.skip(1)
                },
                None => {
                    &&& old(self)@.len() == 0
                    &&& final(self)@ == old(self)@
                },
            },
    {
        let r = self.items.pop_front();
        proof {
            if old(self)@.len() > 0 {
                assert(old(self)@.subrange(1, old(self)@.len() as int) =~= old(self)@.skip(1));
            }
        }
        r
    }

    /// Drain the queue completely into `store`: afterwards the store holds
    /// what it held before followed by every pending event in publish
    /// order, and nothing is pending. One receive per frame would cap
    /// ingestion throughput at the frame rate; the viewer drains fully.
    pub fn drain_into(&mut self, store: &mut Vec<T>)
        ensures
            spec_drain_moves_everything(old(store)@, old(self)@, final(store)@, final(self)@),
    {
        loop
            invariant
                store@ + self@ == old(store)@ + old(self)@,
            decreases self@.len(),
        {
            let ghost pending = self@;
            match self.try_take() {
                Some(value) => {
                    store.push(value);
                    proof {
                        assert(store@ + self@ =~= old(store)@ + old(self)@);
                    }
                },
                None => {
                    proof {
                        assert(self@ =~= Seq::<T>::empty());
                        assert(store@ =~= store@ + self@);
                    }
                    return ;
                },
            }
        }
    }
}

/// One drain's effect on the store and the queue: every pending event
/// moves onto the store's end in publish order, and nothing stays
/// pending.
pub open spec fn spec_drain_moves_everything<T>(
    pre_store: Seq<T>,
    pending: Seq<T>,
    post_store: Seq<T>,
    post_pending: Seq<T>,
) -> bool {
    post_store == pre_store + pending && post_pending == Seq::<T>::empty()
}

/// Drain completeness: after any number of published events, one drain
/// leaves the store holding exactly what it held before followed by every
/// published, not-yet-drained event, in publish order; a second drain
/// with nothing newly published moves nothing and leaves the store as the
/// first drain left it.
pub proof fn lemma_drain_completeness<T>(
    store0: Seq<T>,
    pending: Seq<T>,
    store1: Seq<T>,
    pending1: Seq<T>,
    store2: Seq<T>,
    pending2: Seq<T>,
)
    requires
        spec_drain_moves_everything(store0, pending, store1, pending1),
        spec_drain_moves_everything(store1, pending1, store2, pending2),
    ensures
        store1 == store0 + pending,
        store2 == store1,
        pending2.len() == 0,
{
    assert(store1 + pending1 =~= store1);
}

} // verus!
