//! The bounded sample queue between the capture callback and the pump.
//!
//! The queue itself is `atomic_queue::Queue`. What it does is taken on trust
//! from its source and stated here once, in the contracts of the private
//! functions that call it. A queue that one owner holds alone is described by
//! what it holds; of a queue that threads share nothing is known from one call
//! to the next, since another thread may have pushed or popped in between.

use crate::display_buffer::DisplayBuffer;
use atomic_queue::Queue;
use basedrop::Handle;
use basedrop::Shared;
use vstd::prelude::*;

verus! {

#[verifier::external_type_specification]
#[verifier::external_body]
#[verifier::reject_recursive_types(T)]
pub struct ExQueue<T>(Queue<T>);

#[verifier::external_type_specification]
#[verifier::external_body]
#[verifier::reject_recursive_types(T)]
pub struct ExShared<T>(Shared<T>);

#[verifier::external_type_specification]
#[verifier::external_body]
pub struct ExHandle(Handle);

/// The samples that a queue holds, oldest first.
pub uninterp spec fn queue_held(queue: Queue<u32>) -> Seq<u32>;

/// The capacity that a queue was created with.
pub uninterp spec fn queue_capacity(queue: Queue<u32>) -> nat;

/// How many samples a queue has accepted since it was created.
pub uninterp spec fn queue_accepted(queue: Queue<u32>) -> nat;

/// The capacity of the queue that a shared handle leads to. It is fixed when
/// the queue is created, whatever the threads that share the queue do.
pub uninterp spec fn shared_capacity(shared: Shared<Queue<u32>>) -> nat;

/// `atomic_queue::Queue::new`: an empty queue with room for `capacity`
/// samples. It allocates one four-byte slot per sample in a `Vec`, which
/// panics beyond `isize::MAX` bytes; the bound keeps clear of that.
#[verifier::external_body]
pub(crate) fn new_queue(capacity: usize) -> (queue: Queue<u32>)
    requires
        capacity * 4 <= isize::MAX,
    ensures
        queue_held(queue) == Seq::<u32>::empty(),
        queue_capacity(queue) == capacity,
        queue_accepted(queue) == 0,
{
    Queue::new(capacity)
}

/// `atomic_queue::Queue::push` on a queue that the caller holds alone: a full
/// queue refuses the sample and stays as it is; otherwise the sample goes
/// behind those already held. The queue counts accepted samples in a machine
/// word and compares the count as a signed number, so the contract covers it
/// only while that count is below `isize::MAX`.
#[verifier::external_body]
pub(crate) fn push_exclusive(queue: &mut Queue<u32>, sample: u32) -> (accepted: bool)
    requires
        queue_accepted(*old(queue)) < isize::MAX,
    ensures
        accepted == (queue_held(*old(queue)).len() < queue_capacity(*old(queue))),
        queue_capacity(*final(queue)) == queue_capacity(*old(queue)),
        queue_held(*final(queue)) == if accepted {
            queue_held(*old(queue)).push(sample)
        } else {
            queue_held(*old(queue))
        },
        queue_accepted(*final(queue)) == if accepted {
            queue_accepted(*old(queue)) + 1
        } else {
            queue_accepted(*old(queue))
        },
{
    queue.push(sample)
}

/// `atomic_queue::Queue::pop` on a queue that the caller holds alone: an empty
/// queue gives nothing and stays as it is; otherwise the oldest sample leaves.
/// The queue tells how much it holds from its count of accepted samples, read
/// as a signed number, so the contract covers it only while that count is
/// within `isize::MAX`.
#[verifier::external_body]
pub(crate) fn pop_exclusive(queue: &mut Queue<u32>) -> (sample: Option<u32>)
    requires
        queue_accepted(*old(queue)) <= isize::MAX,
    ensures
        sample == if queue_held(*old(queue)).len() == 0 {
            None
        } else {
            Some(queue_held(*old(queue)).first())
        },
        queue_held(*final(queue)) == if queue_held(*old(queue)).len() == 0 {
            queue_held(*old(queue))
        } else {
            queue_held(*old(queue)).drop_first()
        },
        queue_capacity(*final(queue)) == queue_capacity(*old(queue)),
        queue_accepted(*final(queue)) == queue_accepted(*old(queue)),
{
    queue.pop()
}

/// `basedrop::Shared::new`: moves a queue behind a counted handle that
/// threads can clone. The handle leads to the queue that was moved, so the
/// capacity behind it is that queue's. What the queue holds is not stated:
/// from here on other threads may change it.
#[verifier::external_body]
pub(crate) fn share_queue(handle: &Handle, queue: Queue<u32>) -> (shared: Shared<Queue<u32>>)
    ensures
        shared_capacity(shared) == queue_capacity(queue),
{
    Shared::new(handle, queue)
}

/// `basedrop::Shared::clone`: one more handle to the same queue. The clone
/// holds the same pointer as the handle it was made from and nothing else, so
/// the two are equal.
#[verifier::external_body]
pub(crate) fn clone_shared(queue: &Shared<Queue<u32>>) -> (handle: Shared<Queue<u32>>)
    ensures
        handle == *queue,
{
    queue.clone()
}

/// `atomic_queue::Queue::push` through a shared handle. Whether the sample is
/// accepted depends on what the other threads have done, so nothing is stated
/// of the result.
#[verifier::external_body]
pub(crate) fn push_shared(queue: &Shared<Queue<u32>>, sample: u32) -> (accepted: bool) {
    queue.push(sample)
}

/// `atomic_queue::Queue::pop` through a shared handle. What comes back
/// depends on what the other threads have done, so nothing is stated of the
/// result.
#[verifier::external_body]
pub(crate) fn pop_shared(queue: &Shared<Queue<u32>>) -> (sample: Option<u32>) {
    queue.pop()
}

/// What a queue in one owner's hands is, for the contracts.
pub struct QueueModel {
    /// The samples held, oldest first.
    pub held: Seq<u32>,
    /// How many samples the queue has room for.
    pub capacity: nat,
    /// How many samples it has accepted since it was created.
    pub accepted: nat,
}

impl QueueModel {
    /// A queue as it is created.
    pub open spec fn fresh(capacity: nat) -> QueueModel {
        QueueModel { held: Seq::empty(), capacity, accepted: 0 }
    }

    /// Whether the next sample offered will be accepted: the queue is not
    /// full, and its count of accepted samples has not run out.
    pub open spec fn has_room(self) -> bool {
        self.held.len() < self.capacity && self.accepted < isize::MAX
    }

    /// The queue after `sample` was offered to it.
    pub open spec fn offer(self, sample: u32) -> QueueModel {
        if self.has_room() {
            QueueModel {
                held: self.held.push(sample),
                capacity: self.capacity,
                accepted: self.accepted + 1,
            }
        } else {
            self
        }
    }

    /// The queue after each of `samples` was offered to it in turn.
    pub open spec fn offer_all(self, samples: Seq<u32>) -> QueueModel
        decreases samples.len(),
    {
        if samples.len() == 0 {
            self
        } else {
            self.offer_all(samples.drop_last()).offer(samples.last())
        }
    }

    /// The queue after its oldest sample, if it holds any, was taken.
    pub open spec fn take(self) -> QueueModel {
        if self.held.len() == 0 {
            self
        } else {
            QueueModel {
                held: self.held.drop_first(),
                capacity: self.capacity,
                accepted: self.accepted,
            }
        }
    }

    /// The queue after everything it holds was taken.
    pub open spec fn emptied(self) -> QueueModel {
        QueueModel { held: Seq::empty(), capacity: self.capacity, accepted: self.accepted }
    }
}

/// A sample queue in the hands of one owner, before it is handed to threads.
pub struct SampleQueue {
    inner: Queue<u32>,
    accepted: usize,
}

impl View for SampleQueue {
    type V = QueueModel;

    closed spec fn view(&self) -> QueueModel {
        QueueModel {
            held: queue_held(self.inner),
            capacity: queue_capacity(self.inner),
            accepted: queue_accepted(self.inner),
        }
    }
}

impl SampleQueue {
    /// The queue holds no more than its capacity, and its count of accepted
    /// samples is known.
    pub closed spec fn wf(&self) -> bool {
        &&& queue_held(self.inner).len() <= queue_capacity(self.inner) <= usize::MAX
        &&& queue_accepted(self.inner) == self.accepted
        &&& self.accepted <= isize::MAX
    }

    /// An empty queue with room for `capacity` samples.
    pub fn new(capacity: usize) -> (queue: SampleQueue)
        requires
            capacity * 4 <= isize::MAX,
        ensures
            queue.wf(),
            queue@ == QueueModel::fresh(capacity as nat),
    {
        SampleQueue { inner: new_queue(capacity), accepted: 0 }
    }

    /// Offers one sample. A queue without room drops it and stays as it is.
    pub fn try_push(&mut self, sample: u32) -> (accepted: bool)
        requires
            old(self).wf(),
        ensures
            final(self).wf(),
            accepted == old(self)@.has_room(),
            final(self)@ == old(self)@.offer(sample),
    {
        if self.accepted >= isize::MAX as usize {
            return false;
        }
        let accepted = push_exclusive(&mut self.inner, sample);
        if accepted {
            self.accepted = self.accepted + 1;
        }
        accepted
    }

    /// Takes the oldest sample, or nothing from an empty queue.
    pub fn try_pop(&mut self) -> (sample: Option<u32>)
        requires
            old(self).wf(),
        ensures
            final(self).wf(),
            sample == if old(self)@.held.len() == 0 {
                None
            } else {
                Some(old(self)@.held.first())
            },
            final(self)@ == old(self)@.take(),
    {
        pop_exclusive(&mut self.inner)
    }

    /// Drains the queue into the display ring: every sample held is written,
    /// oldest first, and the count of them is returned.
    pub fn drain_into(&mut self, buffer: &mut DisplayBuffer) -> (drained: usize)
        requires
            old(self).wf(),
            old(buffer).wf(),
        ensures
            final(self).wf(),
            final(buffer).wf(),
            final(self)@ == old(self)@.emptied(),
            final(buffer)@ == old(buffer)@ + old(self)@.held,
            drained == old(self)@.held.len(),
    {
        let ghost queued = self@;
        let ghost written = buffer@;
        let mut drained: usize = 0;
        loop
            invariant
                self.wf(),
                buffer.wf(),
                self@.capacity == queued.capacity,
                self@.accepted == queued.accepted,
                queued.held.len() <= queued.capacity <= usize::MAX,
                drained + self@.held.len() == queued.held.len(),
                buffer@ + self@.held == written + queued.held,
            ensures
                self.wf(),
                buffer.wf(),
                self@ == queued.emptied(),
                buffer@ == written + queued.held,
                drained == queued.held.len(),
            decreases self@.held.len(),
        {
            let ghost held = self@.held;
            let ghost ring = buffer@;
            match self.try_pop() {
                Some(sample) => {
                    buffer.write(sample);
                    drained = drained + 1;
                    assert(buffer@ + self@.held =~= ring + held);
                },
                None => {
                    assert(buffer@ + self@.held =~= buffer@);
                    assert(self@.held =~= Seq::<u32>::empty());
                    break;
                },
            }
        }
        drained
    }

    /// Hands the queue over to threads: the result can be cloned, one clone
    /// for the capture callback and one for the pump. What the queue holds
    /// goes with it, and its capacity stays what it was.
    pub fn share(self, handle: &Handle) -> (shared: Shared<Queue<u32>>)
        ensures
            shared_capacity(shared) == self@.capacity,
    {
        share_queue(handle, self.inner)
    }
}

/// Samples offered to a queue that has room for all of them are all accepted
/// and queue up behind those already held, in the order of offering.
pub proof fn lemma_offers_queue_in_order(queue: QueueModel, samples: Seq<u32>)
    requires
        queue.held.len() + samples.len() <= queue.capacity,
        queue.accepted + samples.len() <= isize::MAX,
    ensures
        queue.offer_all(samples).held == queue.held + samples,
        queue.offer_all(samples).capacity == queue.capacity,
        queue.offer_all(samples).accepted == queue.accepted + samples.len(),
    decreases samples.len(),
{
    if samples.len() == 0 {
        assert(queue.held + samples =~= queue.held);
    } else {
        lemma_offers_queue_in_order(queue, samples.drop_last());
        assert(queue.held + samples =~= (queue.held + samples.drop_last()).push(samples.last()));
    }
}

/// First in, first out: when no more samples are offered to a new queue than
/// it has room for, a drain hands the display ring exactly those samples, each
/// once and in the order of offering, behind what the ring had seen before.
pub proof fn lemma_fifo_delivery(capacity: usize, samples: Seq<u32>, written: Seq<u32>)
    requires
        capacity * 4 <= isize::MAX,
        samples.len() <= capacity,
    ensures
        written + QueueModel::fresh(capacity as nat).offer_all(samples).held == written + samples,
{
    lemma_offers_queue_in_order(QueueModel::fresh(capacity as nat), samples);
    assert(Seq::<u32>::empty() + samples =~= samples);
}

/// Overflow drops the newest: a full queue refuses the sample offered and
/// keeps what it holds, so that a drain still hands over the samples held
/// before, in their order.
pub proof fn lemma_full_queue_drops_newest(queue: QueueModel, sample: u32, written: Seq<u32>)
    requires
        queue.held.len() == queue.capacity,
    ensures
        !queue.has_room(),
        queue.offer(sample) == queue,
        written + queue.offer(sample).held == written + queue.held,
{
}

} // verus!
