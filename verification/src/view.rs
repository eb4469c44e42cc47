//! The waveform view: the snapshot it shows, how a command replaces it, and
//! which samples a paint visits.
//!
//! Turning samples into coordinates on a drawing surface is left to the
//! caller; the view says which samples make up the waveform.

use vstd::prelude::*;

verus! {

/// The state of the view: the latest snapshot. Its view is the snapshot's
/// samples, slot 0 first.
#[derive(Debug)]
pub struct ViewState {
    snapshot: Vec<u32>,
}

impl View for ViewState {
    type V = Seq<u32>;

    closed spec fn view(&self) -> Seq<u32> {
        self.snapshot@
    }
}

impl ViewState {
    /// The state before any snapshot has arrived: an empty snapshot.
    pub fn new() -> (state: ViewState)
        ensures
            state@ == Seq::<u32>::empty(),
    {
        ViewState { snapshot: Vec::new() }
    }

    /// A state that shows `snapshot`.
    pub fn from_snapshot(snapshot: Vec<u32>) -> (state: ViewState)
        ensures
            state@ == snapshot@,
    {
        ViewState { snapshot }
    }

    /// The snapshot shown.
    pub fn snapshot(&self) -> (snapshot: &Vec<u32>)
        ensures
            snapshot@ == self@,
    {
        &self.snapshot
    }

    /// Whether two states are known to show the same: never. Comparing two
    /// snapshots sample by sample on every tick would cost more than the
    /// repaint that it could save.
    pub fn same(&self, other: &ViewState) -> (same: bool)
        ensures
            !same,
    {
        false
    }
}

/// What reaches the view from the event loop.
#[derive(Debug)]
pub enum UiEvent {
    /// The command that carries a new snapshot for the waveform.
    DrawAudio(Vec<u32>),
    /// Anything else.
    Other,
}

/// One step of the waveform's outline: the sample visited, with the sample
/// visited before it.
#[derive(Clone, Copy, Debug, PartialEq, Eq, Structural)]
pub struct Stroke {
    /// Where in the snapshot the sample stands.
    pub index: usize,
    /// The sample visited one step before; for the first step, the first
    /// sample itself.
    pub previous: u32,
    /// The sample visited.
    pub sample: u32,
}

/// How many samples a paint visits in a snapshot of `len` samples when it
/// steps by `stride`: those at 0, `stride`, 2 `stride`, ... below `len`.
pub open spec fn stroke_count(len: nat, stride: nat) -> nat {
    if len == 0 || stride == 0 {
        0
    } else {
        ((len - 1) / (stride as int) + 1) as nat
    }
}

/// The `k`-th stroke of a paint that steps by `stride`.
pub open spec fn stroke_at(snapshot: Seq<u32>, stride: nat, k: int) -> Stroke {
    Stroke {
        index: (k * stride) as usize,
        previous: if k == 0 {
            snapshot[0]
        } else {
            snapshot[(k - 1) * stride]
        },
        sample: snapshot[k * stride],
    }
}

/// The strokes of a paint of `snapshot` that steps by `stride`, in order.
pub open spec fn strokes_of(snapshot: Seq<u32>, stride: nat) -> Seq<Stroke> {
    Seq::new(stroke_count(snapshot.len(), stride), |k: int| stroke_at(snapshot, stride, k))
}

/// The widget that shows the waveform. It keeps nothing of its own: what it
/// shows is the `ViewState` handed to it.
#[derive(Clone, Copy, Debug)]
pub struct WaveformView {}

impl WaveformView {
    /// Handles an event: the waveform's command replaces the snapshot shown
    /// with the one it carries, every other event leaves the state alone. The
    /// answer says whether the state was replaced, which is when a repaint is
    /// due. Nothing is drawn here.
    pub fn on_command(&self, event: UiEvent, data: &mut ViewState) -> (changed: bool)
        ensures
            changed == (event is DrawAudio),
            final(data)@ == match event {
                UiEvent::DrawAudio(snapshot) => snapshot@,
                UiEvent::Other => old(data)@,
            },
    {
        match event {
            UiEvent::DrawAudio(snapshot) => {
                *data = ViewState::from_snapshot(snapshot);
                true
            },
            UiEvent::Other => false,
        }
    }

    /// Whether a change of state calls for a repaint: always.
    pub fn on_state_changed(&self, old_data: &ViewState, data: &ViewState) -> (repaint: bool)
        ensures
            repaint,
    {
        !old_data.same(data)
    }

    /// The strokes that make up the waveform: one for each sample visited when
    /// stepping through the snapshot by `stride`, starting at its first
    /// sample. An empty snapshot gives no stroke. A stride of zero would never
    /// get past the first sample of a snapshot that has one.
    pub fn on_paint(&self, data: &ViewState, stride: usize) -> (strokes: Vec<Stroke>)
        requires
            data@.len() > 0 ==> stride > 0,
        ensures
            strokes@ == strokes_of(data@, stride as nat),
    {
        let snapshot = &data.snapshot;
        let len = snapshot.len();
        let mut strokes: Vec<Stroke> = Vec::new();
        if len == 0 {
            assert(strokes@ =~= strokes_of(data@, stride as nat));
            return strokes;
        }
        let mut previous: u32 = snapshot[0];
        let mut index: usize = 0;
        loop
            invariant_except_break
                index < len,
                index == strokes@.len() * stride,
                strokes@.len() < stroke_count(len as nat, stride as nat),
                strokes@.len() > 0 ==> 0 <= (strokes@.len() - 1) * stride < len,
                previous == (if strokes@.len() == 0 {
                    snapshot@[0]
                } else {
                    snapshot@[(strokes@.len() - 1) * stride]
                }),
                forall|k: int|
                    0 <= k < strokes@.len() ==> strokes@[k] == stroke_at(
                        data@,
                        stride as nat,
                        k,
                    ),
            invariant
                len == snapshot@.len(),
                snapshot@ == data@,
                stride > 0,
            ensures
                strokes@.len() == stroke_count(len as nat, stride as nat),
                forall|k: int|
                    0 <= k < strokes@.len() ==> strokes@[k] == stroke_at(
                        data@,
                        stride as nat,
                        k,
                    ),
            decreases len - index,
        {
            let ghost k = strokes@.len() as int;
            let sample = snapshot[index];
            strokes.push(Stroke { index, previous, sample });
            previous = sample;
            proof {
                assert((k + 1) * stride == k * stride + stride) by (nonlinear_arith);
            }
            if stride >= len - index {
                proof {
                    lemma_stroke_count(len as int, stride as int, k);
                }
                break;
            }
            index = index + stride;
            proof {
                lemma_more_strokes(len as int, stride as int, k + 1);
            }
        }
        assert(strokes@ =~= strokes_of(data@, stride as nat));
        strokes
    }
}

/// The visit at `k * stride` is the last one below `len` when the next would
/// reach `len`.
proof fn lemma_stroke_count(len: int, stride: int, k: int)
    requires
        stride > 0,
        0 <= k,
        k * stride < len,
        len <= k * stride + stride,
    ensures
        stroke_count(len as nat, stride as nat) == k + 1,
{
    assert((len - 1) / stride == k) by (nonlinear_arith)
        requires
            stride > 0,
            k * stride <= len - 1,
            len - 1 < k * stride + stride,
    ;
}

/// While `k * stride` is below `len`, the paint has more than `k` strokes.
proof fn lemma_more_strokes(len: int, stride: int, k: int)
    requires
        stride > 0,
        0 <= k,
        k * stride < len,
    ensures
        k < stroke_count(len as nat, stride as nat),
{
    assert((len - 1) / stride >= k) by (nonlinear_arith)
        requires
            stride > 0,
            k * stride <= len - 1,
    ;
}

/// Painting is repeatable: two paints of the same snapshot with the same
/// stride give the same strokes.
pub proof fn lemma_paint_is_repeatable(
    first: Seq<Stroke>,
    second: Seq<Stroke>,
    snapshot: Seq<u32>,
    stride: nat,
)
    requires
        first == strokes_of(snapshot, stride),
        second == strokes_of(snapshot, stride),
    ensures
        first == second,
{
}

} // verus!
