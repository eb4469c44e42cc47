use waveform_bridge::view::Stroke;
use waveform_bridge::view::UiEvent;
use waveform_bridge::view::ViewState;
use waveform_bridge::view::WaveformView;

#[test]
fn new_state_shows_nothing() {
    let state = ViewState::new();
    assert!(state.snapshot().is_empty());
}

#[test]
fn draw_command_replaces_the_snapshot() {
    let view = WaveformView {};
    let mut state = ViewState::from_snapshot(vec![1, 2, 3]);
    assert!(view.on_command(UiEvent::DrawAudio(vec![4, 5]), &mut state));
    assert_eq!(state.snapshot(), &vec![4, 5]);
}

#[test]
fn other_events_leave_the_state_alone() {
    let view = WaveformView {};
    let mut state = ViewState::from_snapshot(vec![1, 2, 3]);
    assert!(!view.on_command(UiEvent::Other, &mut state));
    assert_eq!(state.snapshot(), &vec![1, 2, 3]);
}

#[test]
fn states_never_count_as_the_same() {
    let a = ViewState::from_snapshot(vec![1, 2, 3]);
    let b = ViewState::from_snapshot(vec![1, 2, 3]);
    assert!(!a.same(&b));
    assert!(!a.same(&a));
    assert!(!ViewState::new().same(&ViewState::new()));
}

#[test]
fn every_change_of_state_asks_for_a_repaint() {
    let view = WaveformView {};
    let a = ViewState::from_snapshot(vec![1]);
    let b = ViewState::from_snapshot(vec![1]);
    assert!(view.on_state_changed(&a, &b));
    assert!(view.on_state_changed(&a, &a));
}

#[test]
fn zero_length_paint() {
    let view = WaveformView {};
    let state = ViewState::from_snapshot(Vec::new());
    assert_eq!(view.on_paint(&state, 0), Vec::new());
    assert_eq!(view.on_paint(&state, 7), Vec::new());
    assert_eq!(view.on_paint(&ViewState::new(), 0), Vec::new());
}

#[test]
fn paint_visits_every_stride_th_sample() {
    let view = WaveformView {};
    let state = ViewState::from_snapshot(vec![10, 11, 12, 13, 14, 15, 16]);
    assert_eq!(
        view.on_paint(&state, 3),
        vec![
            Stroke { index: 0, previous: 10, sample: 10 },
            Stroke { index: 3, previous: 10, sample: 13 },
            Stroke { index: 6, previous: 13, sample: 16 },
        ]
    );
    assert_eq!(
        view.on_paint(&state, 4),
        vec![
            Stroke { index: 0, previous: 10, sample: 10 },
            Stroke { index: 4, previous: 10, sample: 14 },
        ]
    );
}

#[test]
fn paint_with_stride_one_visits_every_sample() {
    let view = WaveformView {};
    let state = ViewState::from_snapshot(vec![5, 6, 7]);
    assert_eq!(
        view.on_paint(&state, 1),
        vec![
            Stroke { index: 0, previous: 5, sample: 5 },
            Stroke { index: 1, previous: 5, sample: 6 },
            Stroke { index: 2, previous: 6, sample: 7 },
        ]
    );
}

#[test]
fn paint_with_a_stride_beyond_the_snapshot_visits_the_first_sample_only() {
    let view = WaveformView {};
    let state = ViewState::from_snapshot(vec![5, 6, 7]);
    let first = vec![Stroke { index: 0, previous: 5, sample: 5 }];
    assert_eq!(view.on_paint(&state, 3), first);
    assert_eq!(view.on_paint(&state, usize::MAX), first);
}

#[test]
fn paint_of_a_full_snapshot_counts_one_stroke_per_stride() {
    let view = WaveformView {};
    let snapshot: Vec<u32> = (0..22050u32).collect();
    let state = ViewState::from_snapshot(snapshot);
    let strokes = view.on_paint(&state, 22);
    assert_eq!(strokes.len(), 1003);
    assert_eq!(strokes[1002], Stroke { index: 22044, previous: 22022, sample: 22044 });
    assert_eq!(view.on_paint(&state, 21).len(), 1050);
}

#[test]
fn paint_idempotence() {
    let view = WaveformView {};
    let snapshot: Vec<u32> = (0..500u32).map(|i| i.wrapping_mul(40503)).collect();
    let state = ViewState::from_snapshot(snapshot);
    let first = view.on_paint(&state, 7);
    let second = view.on_paint(&state, 7);
    assert_eq!(first, second);
    assert_eq!(first.len(), 72);
}
