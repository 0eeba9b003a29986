//! Streaming transcription pipeline: decode a 16-bit PCM WAV container into
//! samples, hand them to a speech-recognition engine, and deliver the
//! recognized segments to an output sink in chronological order through a
//! FIFO channel.

pub mod adapter;
pub mod channel;
pub mod errors;
pub mod render;
pub mod segment;
pub mod wav;
