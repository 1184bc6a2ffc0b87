//! Streaming playback engine: a bounded sample ring between a decoding
//! producer and a real-time consumer, with the decisions of both threads
//! stated as verified functions.

pub mod decoder;
pub mod gpu;
pub mod output;
pub mod ring;
pub mod session;
pub mod waveform;
