//! The pump between the sample queue and the view: it drains the queue into
//! the display ring, publishes a copy of the ring, and paces itself.
//!
//! Submitting to the view's event sink and sleeping are the caller's work. The
//! pump says what to do next, and is told what came of it.

use crate::display_buffer::ring_contents;
use crate::display_buffer::DisplayBuffer;
use atomic_queue::Queue;
use basedrop::Shared;
use vstd::prelude::*;

verus! {

/// How long the pump rests between two snapshots, in milliseconds.
pub const PACING_MILLIS: u64 = 100;

/// Whether the pump is still at work.
#[derive(Clone, Copy, Debug, PartialEq, Eq, Structural)]
pub enum PumpState {
    /// The pump drains and publishes.
    Running,
    /// The sink has closed; the pump has nothing more to do.
    Terminated,
}

/// What the caller reports to the pump.
#[derive(Clone, Copy, Debug, PartialEq, Eq, Structural)]
pub enum PumpEvent {
    /// The pump starts, or its rest is over.
    Wake,
    /// The sink took the snapshot.
    Delivered,
    /// The sink refused the snapshot: the view is gone.
    SinkClosed,
}

/// What the pump asks the caller to do.
#[derive(Debug, PartialEq, Eq)]
pub enum PumpAction {
    /// Submit this snapshot to the view's event sink, then report `Delivered`
    /// or `SinkClosed`.
    Submit(Vec<u32>),
    /// Sleep for this many milliseconds, then report `Wake`.
    Sleep(u64),
    /// Leave the loop.
    Exit,
}

/// The state that follows `state` on `event`: only a closed sink ends the pump,
/// and nothing starts it again.
pub open spec fn next_state(state: PumpState, event: PumpEvent) -> PumpState {
    if state == PumpState::Running && event != PumpEvent::SinkClosed {
        PumpState::Running
    } else {
        PumpState::Terminated
    }
}

/// The pump: the display ring, and whether the pump is still running.
pub struct Pump {
    buffer: DisplayBuffer,
    state: PumpState,
}

impl Pump {
    /// The display ring is well formed.
    pub closed spec fn wf(&self) -> bool {
        self.buffer.wf()
    }

    /// Whether the pump is running.
    pub closed spec fn state(&self) -> PumpState {
        self.state
    }

    /// Every sample the pump has written to its ring, oldest first.
    pub closed spec fn written(&self) -> Seq<u32> {
        self.buffer@
    }

    /// A running pump whose ring is silent.
    pub fn new() -> (pump: Pump)
        ensures
            pump.wf(),
            pump.state() == PumpState::Running,
            pump.written() == Seq::<u32>::empty(),
    {
        Pump { buffer: DisplayBuffer::new(), state: PumpState::Running }
    }

    /// Whether the pump is still running.
    pub fn is_running(&self) -> (running: bool)
        ensures
            running == (self.state() == PumpState::Running),
    {
        self.state == PumpState::Running
    }

    /// One step of the pump.
    ///
    /// A running pump that wakes drains `queue` into its ring and asks for a
    /// copy of the ring to be submitted. Told that the copy was delivered, it
    /// asks for its rest, always of the same length. Told that the sink has
    /// closed, it terminates. A terminated pump only ever asks to leave.
    pub fn step(&mut self, event: PumpEvent, queue: &Shared<Queue<u32>>) -> (action: PumpAction)
        requires
            old(self).wf(),
        ensures
            final(self).wf(),
            final(self).state() == next_state(old(self).state(), event),
            old(self).written().is_prefix_of(final(self).written()),
            !(old(self).state() == PumpState::Running && event == PumpEvent::Wake)
                ==> final(self).written() == old(self).written(),
            match action {
                PumpAction::Submit(snapshot) => {
                    &&& old(self).state() == PumpState::Running
                    &&& event == PumpEvent::Wake
                    &&& snapshot@ == ring_contents(final(self).written())
                },
                PumpAction::Sleep(millis) => {
                    &&& old(self).state() == PumpState::Running
                    &&& event == PumpEvent::Delivered
                    &&& millis == PACING_MILLIS
                },
                PumpAction::Exit => {
                    ||| old(self).state() == PumpState::Terminated
                    ||| event == PumpEvent::SinkClosed
                },
            },
    {
        match self.state {
            PumpState::Terminated => PumpAction::Exit,
            PumpState::Running => match event {
                PumpEvent::Wake => {
                    let _ = self.buffer.drain(queue);
                    PumpAction::Submit(self.buffer.snapshot())
                },
                PumpEvent::Delivered => PumpAction::Sleep(PACING_MILLIS),
                PumpEvent::SinkClosed => {
                    self.state = PumpState::Terminated;
                    PumpAction::Exit
                },
            },
        }
    }
}

/// Shutdown: a pump that learns that the sink has closed is terminated,
/// whatever state it was in, and a terminated pump stays so on every event.
pub proof fn lemma_shutdown_is_final(state: PumpState, event: PumpEvent)
    ensures
        next_state(state, PumpEvent::SinkClosed) == PumpState::Terminated,
        next_state(PumpState::Terminated, event) == PumpState::Terminated,
        next_state(next_state(state, PumpEvent::SinkClosed), event) == PumpState::Terminated,
{
}

} // verus!
