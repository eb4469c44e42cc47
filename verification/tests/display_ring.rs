use waveform_bridge::display_buffer::DisplayBuffer;
use waveform_bridge::display_buffer::DISPLAY_LEN;
use waveform_bridge::display_buffer::SILENCE;

#[test]
fn ring_has_five_blocks_of_4410_slots() {
    assert_eq!(DISPLAY_LEN, 22050);
    assert_eq!(DISPLAY_LEN, 5 * 4410);
    assert_eq!(SILENCE, 0.0f32.to_bits());
}

#[test]
fn new_ring_is_silent() {
    let buffer = DisplayBuffer::new();
    let snapshot = buffer.snapshot();
    assert_eq!(snapshot.len(), DISPLAY_LEN);
    assert!(snapshot.iter().all(|&slot| slot == SILENCE));
    assert_eq!(buffer.write_index(), 0);
}

#[test]
fn write_fills_slots_in_order() {
    let mut buffer = DisplayBuffer::new();
    buffer.write(11);
    buffer.write(22);
    buffer.write(33);
    let snapshot = buffer.snapshot();
    assert_eq!(snapshot[0], 11);
    assert_eq!(snapshot[1], 22);
    assert_eq!(snapshot[2], 33);
    assert_eq!(snapshot[3], SILENCE);
    assert_eq!(snapshot[DISPLAY_LEN - 1], SILENCE);
    assert_eq!(buffer.write_index(), 3);
}

#[test]
fn write_wraps_to_slot_zero_after_the_last_slot() {
    let mut buffer = DisplayBuffer::new();
    for i in 0..DISPLAY_LEN {
        buffer.write(i as u32 + 1);
    }
    assert_eq!(buffer.write_index(), 0);
    let full = buffer.snapshot();
    assert_eq!(full[0], 1);
    assert_eq!(full[DISPLAY_LEN - 1], DISPLAY_LEN as u32);
    buffer.write(777);
    assert_eq!(buffer.write_index(), 1);
    let wrapped = buffer.snapshot();
    assert_eq!(wrapped[0], 777);
    assert_eq!(wrapped[1], 2);
    assert_eq!(wrapped[DISPLAY_LEN - 1], DISPLAY_LEN as u32);
}

#[test]
fn ring_keeps_the_last_samples_at_their_positions_modulo_its_length() {
    let total = DISPLAY_LEN + 5000;
    let mut buffer = DisplayBuffer::new();
    for i in 0..total {
        buffer.write(1000 + i as u32);
    }
    let snapshot = buffer.snapshot();
    assert_eq!(snapshot.len(), DISPLAY_LEN);
    for i in (total - DISPLAY_LEN)..total {
        assert_eq!(snapshot[i % DISPLAY_LEN], 1000 + i as u32);
    }
    assert_eq!(buffer.write_index(), total % DISPLAY_LEN);
    assert_eq!(snapshot[4999], 1000 + (DISPLAY_LEN + 4999) as u32);
    assert_eq!(snapshot[5000], 1000 + 5000);
}

#[test]
fn full_ring_is_the_tail_turned_round() {
    let total = 2 * DISPLAY_LEN + 123;
    let mut buffer = DisplayBuffer::new();
    let mut all: Vec<u32> = Vec::new();
    for i in 0..total {
        let sample = (i as u32).wrapping_mul(2654435761);
        buffer.write(sample);
        all.push(sample);
    }
    let tail = &all[total - DISPLAY_LEN..];
    let seam = total % DISPLAY_LEN;
    let mut expected: Vec<u32> = Vec::new();
    expected.extend_from_slice(&tail[DISPLAY_LEN - seam..]);
    expected.extend_from_slice(&tail[..DISPLAY_LEN - seam]);
    assert_eq!(buffer.snapshot(), expected);
}

#[test]
fn absorb_writes_a_sample_and_ignores_nothing() {
    let mut buffer = DisplayBuffer::new();
    assert!(buffer.absorb(Some(5)));
    assert!(!buffer.absorb(None));
    assert!(buffer.absorb(Some(6)));
    let snapshot = buffer.snapshot();
    assert_eq!(&snapshot[..3], &[5, 6, SILENCE]);
    assert_eq!(buffer.write_index(), 2);
}

#[test]
fn snapshot_is_a_copy() {
    let mut buffer = DisplayBuffer::new();
    buffer.write(1);
    let before = buffer.snapshot();
    buffer.write(2);
    assert_eq!(before[1], SILENCE);
    assert_eq!(buffer.snapshot()[1], 2);
}
