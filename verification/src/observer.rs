//! State observer: a subscription handle bound to one shared device
//! state, receiving its change notifications in order.

use vstd::prelude::*;
use crate::state::{SharedDeviceState, StateChangeType};

verus! {

/// A subscription handle for the change notifications of one shared
/// device state. The channel is unbounded and decoupled from the worker:
/// a slow observer never blocks the worker, and every registered
/// observer receives every notification sent after its registration.
pub struct StateObserver {
    /// Thread ID
    thread_id: u32,
    /// Subscriber identifier inside the shared state
    subscriber: usize,
}

impl StateObserver {
    /// The observed thread's identifier, for contracts.
    pub closed spec fn thread_id_spec(self) -> u32 {
        self.thread_id
    }

    /// The subscriber slot this handle reads, for contracts.
    pub closed spec fn subscriber_spec(self) -> usize {
        self.subscriber
    }

    /// Create a new state observer: registers one more subscriber on the
    /// shared state and binds the handle to it.
    pub fn new(thread_id: u32, shared_state: &mut SharedDeviceState) -> (r: Self)
        ensures
            r.thread_id_spec() == thread_id,
            r.subscriber_spec() == old(shared_state).queues().len(),
            final(shared_state).queues() =~= old(shared_state).queues().push(
                Seq::<StateChangeType>::empty(),
            ),
            final(shared_state).state_spec() == old(shared_state).state_spec(),
            final(shared_state).running_spec() == old(shared_state).running_spec(),
            final(shared_state).paused_spec() == old(shared_state).paused_spec(),
            final(shared_state).last_update_spec() == old(shared_state).last_update_spec(),
    {
        let subscriber = shared_state.setup_notifications();
        StateObserver { thread_id, subscriber }
    }

    /// Check for a state change without blocking: the oldest pending
    /// notification of this observer, absent when none is pending.
    pub fn check_for_change(&self, shared_state: &mut SharedDeviceState) -> (r: Option<
        StateChangeType,
    >)
        ensures
            final(shared_state).state_spec() == old(shared_state).state_spec(),
            final(shared_state).running_spec() == old(shared_state).running_spec(),
            final(shared_state).paused_spec() == old(shared_state).paused_spec(),
            final(shared_state).last_update_spec() == old(shared_state).last_update_spec(),
            self.subscriber_spec() >= old(shared_state).queues().len() ==> r is None && final(shared_state).queues() == old(shared_state).queues(),
            self.subscriber_spec() < old(shared_state).queues().len() && old(shared_state).queues()[self.subscriber_spec() as int].len() == 0 ==> r is None && final(shared_state).queues() == old(shared_state).queues(),
            self.subscriber_spec() < old(shared_state).queues().len() && old(shared_state).queues()[self.subscriber_spec() as int].len() > 0 ==> r == Some(
                old(shared_state).queues()[self.subscriber_spec() as int][0],
            ) && final(shared_state).queues() =~= old(shared_state).queues().update(
                self.subscriber_spec() as int,
                old(shared_state).queues()[self.subscriber_spec() as int].drop_first(),
            ),
    {
        shared_state.take_change(self.subscriber)
    }

    /// Drain and return all pending state changes of this observer, in
    /// the order they were sent.
    pub fn process_all_changes(&self, shared_state: &mut SharedDeviceState) -> (r: Vec<
        StateChangeType,
    >)
        ensures
            final(shared_state).state_spec() == old(shared_state).state_spec(),
            final(shared_state).running_spec() == old(shared_state).running_spec(),
            final(shared_state).paused_spec() == old(shared_state).paused_spec(),
            final(shared_state).last_update_spec() == old(shared_state).last_update_spec(),
            self.subscriber_spec() >= old(shared_state).queues().len() ==> r@.len() == 0 && final(shared_state).queues() == old(shared_state).queues(),
            self.subscriber_spec() < old(shared_state).queues().len() ==> r@ == old(shared_state).queues()[self.subscriber_spec() as int] && final(shared_state).queues() =~= old(shared_state).queues().update(self.subscriber_spec() as int, Seq::<StateChangeType>::empty()),
    {
        let mut r: Vec<StateChangeType> = Vec::new();
        let sub = self.subscriber;
        let ghost q0 = old(shared_state).queues();
        if sub >= shared_state.subscriber_count() {
            return r;
        }
        loop
            invariant
                q0 == old(shared_state).queues(),
                sub == self.subscriber_spec(),
                sub < q0.len(),
                q0.len() == shared_state.queues().len(),
                shared_state.state_spec() == old(shared_state).state_spec(),
                shared_state.running_spec() == old(shared_state).running_spec(),
                shared_state.paused_spec() == old(shared_state).paused_spec(),
                shared_state.last_update_spec() == old(shared_state).last_update_spec(),
                r@ + shared_state.queues()[sub as int] == q0[sub as int],
                forall|j: int|
                    0 <= j < q0.len() && j != sub ==> #[trigger] shared_state.queues()[j] == q0[j],
            decreases shared_state.queues()[sub as int].len(),
        {
            let ghost qpre = shared_state.queues();
            let next = shared_state.take_change(sub);
            match next {
                Option::Some(c) => {
                    r.push(c);
                    proof {
                        assert(r@ + shared_state.queues()[sub as int] =~= q0[sub as int]);
                    }
                },
                Option::None => {
                    proof {
                        assert(shared_state.queues()[sub as int].len() == 0);
                        assert(shared_state.queues()[sub as int] =~= Seq::<
                            StateChangeType,
                        >::empty());
                        assert(r@ =~= q0[sub as int]);
                        assert(shared_state.queues() =~= q0.update(
                            sub as int,
                            Seq::<StateChangeType>::empty(),
                        ));
                    }
                    return r;
                },
            }
        }
    }

    /// Get the observed thread's identifier.
    pub fn thread_id(&self) -> (r: u32)
        ensures
            r == self.thread_id_spec(),
    {
        self.thread_id
    }
}

} // verus!
