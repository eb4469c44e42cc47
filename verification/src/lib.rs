//! A bridge that carries audio samples from a realtime capture callback to a
//! waveform view: a bounded sample queue, a display ring that keeps the most
//! recent samples, the pump that moves samples from one to the other and
//! publishes snapshots, and the state of the view that shows them.
//!
//! A sample is handled as the 32-bit pattern of a single-precision number; the
//! bridge passes it through and never interprets it.

pub mod capture;
pub mod display_buffer;
pub mod pump;
pub mod sample_queue;
pub mod view;
