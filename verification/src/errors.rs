use vstd::prelude::*;

verus! {

/// Why a pipeline stage failed. Every failure of the audio loader, the
/// segment channel or the engine adapter is surfaced as one of these; the
/// pipeline treats all of them as fatal.
#[derive(Clone, Copy, Debug, PartialEq, Eq, Structural)]
pub enum PipelineError {
    /// The input could not be read, or the container is malformed.
    IoError,
    /// The container declares a sample encoding other than 16-bit integer PCM.
    UnsupportedFormat,
    /// The model artifact is missing, corrupt, or incompatible.
    ModelLoadError,
    /// The engine reported failure during a transcription run.
    InferenceError,
    /// A segment was sent after the consumer end was dropped.
    ChannelClosed,
}

} // verus!
