//! The capture side of the bridge: what the audio callback does with each
//! input sample.

use crate::sample_queue::clone_shared;
use crate::sample_queue::push_shared;
use crate::sample_queue::shared_capacity;
use crate::sample_queue::SampleQueue;
use atomic_queue::Queue;
use basedrop::Handle;
use basedrop::Shared;
use vstd::prelude::*;

verus! {

/// Room in the queue of a producer made with `new`: half a second of samples
/// at 44.1 kHz, five times what arrives between two wake-ups of the pump.
pub const QUEUE_CAPACITY: usize = 22050;

/// The producer that runs inside the audio callback. It owns one handle to the
/// sample queue and gives out further handles for the consuming side.
pub struct CaptureProducer {
    queue: Shared<Queue<u32>>,
}

impl CaptureProducer {
    /// The producer's own handle to the queue.
    pub closed spec fn handle(&self) -> Shared<Queue<u32>> {
        self.queue
    }

    /// How many samples the producer's queue has room for.
    pub open spec fn capacity(&self) -> nat {
        shared_capacity(self.handle())
    }

    /// A producer with a new, empty queue with room for `QUEUE_CAPACITY`
    /// samples. The queue's memory is released through `handle`'s collector
    /// once the last handle to it has gone.
    pub fn new(handle: &Handle) -> (producer: CaptureProducer)
        ensures
            producer.capacity() == QUEUE_CAPACITY,
    {
        CaptureProducer::with_capacity(handle, QUEUE_CAPACITY)
    }

    /// A producer with a new, empty queue with room for `capacity` samples.
    pub fn with_capacity(handle: &Handle, capacity: usize) -> (producer: CaptureProducer)
        requires
            capacity * 4 <= isize::MAX,
        ensures
            producer.capacity() == capacity,
    {
        CaptureProducer { queue: SampleQueue::new(capacity).share(handle) }
    }

    /// A producer on a queue that is shared already: it feeds that queue.
    pub fn with_queue(queue: Shared<Queue<u32>>) -> (producer: CaptureProducer)
        ensures
            producer.handle() == queue,
    {
        CaptureProducer { queue }
    }

    /// Another handle to the producer's queue, for the pump.
    pub fn queue(&self) -> (handle: Shared<Queue<u32>>)
        ensures
            handle == self.handle(),
    {
        clone_shared(&self.queue)
    }

    /// Takes one input sample: offers it to the queue and goes on, whether the
    /// queue had room or not. A sample that finds the queue full is lost, and
    /// nobody is told.
    pub fn on_audio_frame(&self, sample: u32) {
        let _ = push_shared(&self.queue, sample);
    }
}

} // verus!
