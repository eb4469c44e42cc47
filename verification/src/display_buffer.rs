//! The display ring: a fixed number of slots that always hold the most recent
//! samples written, older ones being overwritten in place.

use crate::sample_queue::pop_shared;
use atomic_queue::Queue;
use basedrop::Shared;
use vstd::prelude::*;

verus! {

/// Number of slots in the display ring: five blocks of 4410 samples.
pub const DISPLAY_LEN: usize = 22050;

/// What a slot holds until a sample is written to it: the pattern of 0.0.
pub const SILENCE: u32 = 0;

/// Position, in the sequence of all samples written so far, of the sample that
/// `slot` holds once `written` samples have gone into the ring. Negative when
/// nothing has been written to the slot yet.
pub open spec fn latest_index(written: nat, slot: int) -> int {
    let lap_start = written - written % (DISPLAY_LEN as nat);
    if slot < written % (DISPLAY_LEN as nat) {
        lap_start + slot
    } else {
        lap_start - DISPLAY_LEN + slot
    }
}

/// The ring's storage, slot by slot from slot 0, after the samples of `history`
/// have been written in order.
pub open spec fn ring_contents(history: Seq<u32>) -> Seq<u32> {
    Seq::new(
        DISPLAY_LEN as nat,
        |slot: int|
            if latest_index(history.len(), slot) >= 0 {
                history[latest_index(history.len(), slot)]
            } else {
                SILENCE
            },
    )
}

/// The ring of samples that the pump fills and copies out.
///
/// Its view is the sequence of every sample written to it, oldest first; the
/// storage is `ring_contents` of that sequence.
pub struct DisplayBuffer {
    storage: Vec<u32>,
    cursor: usize,
    history: Ghost<Seq<u32>>,
}

impl View for DisplayBuffer {
    type V = Seq<u32>;

    closed spec fn view(&self) -> Seq<u32> {
        self.history@
    }
}

impl DisplayBuffer {
    /// The storage holds what the samples written so far leave in the ring, and
    /// the write cursor stands behind the slot written last.
    pub closed spec fn wf(&self) -> bool {
        &&& self.storage@ == ring_contents(self.history@)
        &&& self.cursor == self.history@.len() % (DISPLAY_LEN as nat)
    }

    /// A ring in which every slot holds `SILENCE` and nothing has been written.
    pub fn new() -> (buffer: DisplayBuffer)
        ensures
            buffer.wf(),
            buffer@ == Seq::<u32>::empty(),
    {
        let mut storage: Vec<u32> = Vec::with_capacity(DISPLAY_LEN);
        while storage.len() < DISPLAY_LEN
            invariant
                storage.len() <= DISPLAY_LEN,
                forall|i: int| 0 <= i < storage.len() ==> storage[i] == SILENCE,
            decreases DISPLAY_LEN - storage.len(),
        {
            storage.push(SILENCE);
        }
        assert(storage@ =~= ring_contents(Seq::<u32>::empty()));
        DisplayBuffer { storage, cursor: 0, history: Ghost(Seq::empty()) }
    }

    /// The slot that the next sample goes to.
    pub fn write_index(&self) -> (slot: usize)
        requires
            self.wf(),
        ensures
            slot == self@.len() % (DISPLAY_LEN as nat),
    {
        self.cursor
    }

    /// Writes one sample to the slot after the one written last, wrapping to
    /// slot 0 after the last slot.
    pub fn write(&mut self, sample: u32)
        requires
            old(self).wf(),
        ensures
            final(self).wf(),
            final(self)@ == old(self)@.push(sample),
    {
        let ghost before = self.history@;
        let ghost after = before.push(sample);
        self.storage.set(self.cursor, sample);
        self.cursor = if self.cursor + 1 == DISPLAY_LEN {
            0
        } else {
            self.cursor + 1
        };
        self.history = Ghost(after);
        assert(self.storage@ =~= ring_contents(after));
    }

    /// Takes in what one pop from the queue gave: a sample is written, nothing
    /// leaves the ring as it is. The answer says whether a sample came.
    pub fn absorb(&mut self, popped: Option<u32>) -> (taken: bool)
        requires
            old(self).wf(),
        ensures
            final(self).wf(),
            taken == popped.is_some(),
            final(self)@ == match popped {
                Some(sample) => old(self)@.push(sample),
                None => old(self)@,
            },
    {
        match popped {
            Some(sample) => {
                self.write(sample);
                true
            },
            None => false,
        }
    }

    /// Drains a shared queue: pops and writes sample after sample until a pop
    /// gives nothing, and returns how many were written. What was written
    /// before stays in front of what this call adds. A count that reaches
    /// `usize::MAX` ends the call as well.
    pub fn drain(&mut self, queue: &Shared<Queue<u32>>) -> (drained: usize)
        requires
            old(self).wf(),
        ensures
            final(self).wf(),
            old(self)@.is_prefix_of(final(self)@),
            final(self)@.len() == old(self)@.len() + drained,
    {
        let ghost before = self@;
        let mut drained: usize = 0;
        while drained < usize::MAX
            invariant
                self.wf(),
                before.is_prefix_of(self@),
                self@.len() == before.len() + drained,
            decreases usize::MAX - drained,
        {
            let popped = pop_shared(queue);
            if !self.absorb(popped) {
                break;
            }
            drained = drained + 1;
        }
        drained
    }

    /// A copy of the storage as it stands, slot 0 first.
    pub fn snapshot(&self) -> (copy: Vec<u32>)
        requires
            self.wf(),
        ensures
            copy@ == ring_contents(self@),
    {
        let copy = self.storage.clone();
        assert(copy@ =~= self.storage@);
        copy
    }
}

/// Ring semantics: each of the last `DISPLAY_LEN` samples written stands in the
/// slot that its position in the history gives, modulo the ring's length.
pub proof fn lemma_ring_holds_latest(history: Seq<u32>, i: int)
    requires
        0 <= i < history.len(),
        history.len() - i <= DISPLAY_LEN,
    ensures
        ring_contents(history)[i % (DISPLAY_LEN as int)] == history[i],
{
}

/// A slot that no sample has reached yet still holds `SILENCE`.
pub proof fn lemma_unwritten_slot_is_silent(history: Seq<u32>, slot: int)
    requires
        history.len() <= slot < DISPLAY_LEN,
    ensures
        ring_contents(history)[slot] == SILENCE,
{
}

/// Once the ring has been filled, its storage is the last `DISPLAY_LEN`
/// samples turned round: the newest part, which the current lap has written,
/// in front, and the older part, left by the lap before, behind it.
pub proof fn lemma_full_ring_is_rotated_tail(history: Seq<u32>)
    requires
        history.len() >= DISPLAY_LEN,
    ensures
        ({
            let tail = history.subrange(history.len() - DISPLAY_LEN, history.len() as int);
            let seam = history.len() % (DISPLAY_LEN as nat);
            ring_contents(history) == tail.subrange(DISPLAY_LEN - seam, DISPLAY_LEN as int)
                + tail.subrange(0, DISPLAY_LEN - seam)
        }),
{
    let tail = history.subrange(history.len() - DISPLAY_LEN, history.len() as int);
    let seam = history.len() % (DISPLAY_LEN as nat);
    assert(ring_contents(history) =~= tail.subrange(DISPLAY_LEN - seam, DISPLAY_LEN as int)
        + tail.subrange(0, DISPLAY_LEN - seam));
}

} // verus!
