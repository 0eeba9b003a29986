use vstd::prelude::*;

use crate::channel::SegmentChannel;
use crate::errors::PipelineError;
use crate::segment::Segment;

verus! {

/// The search strategy the engine uses to pick the most likely output
/// sequence.
#[derive(Clone, Copy, Debug, PartialEq, Eq, Structural)]
pub enum SamplingStrategy {
    Greedy,
    BeamSearch,
}

/// The parameters of one inference call: the seed text biasing recognition,
/// the target language (`None` means auto-detect), and the sampling
/// strategy. Immutable once constructed.
#[derive(Debug)]
pub struct TranscriptionConfig {
    pub initial_prompt: String,
    pub language: Option<String>,
    pub strategy: SamplingStrategy,
}

/// Lifecycle of the engine adapter: only a configured adapter may start a
/// run, and a run is not re-entrant.
#[derive(Clone, Copy, Debug, PartialEq, Eq, Structural)]
pub enum AdapterState {
    Unconfigured,
    Configured,
    Running,
    Completed,
    Failed,
}

/// The control side of the transcription engine adapter. It tracks the
/// lifecycle the opaque model context must follow — configure once, then
/// one blocking run at a time — and holds the parameters of the pending
/// run. The inference call itself is the engine's; the adapter's work on
/// each recognized segment is `handle_segment`.
pub struct EngineAdapter {
    state: AdapterState,
    config: Option<TranscriptionConfig>,
}

impl EngineAdapter {
    /// Where the adapter stands in its lifecycle.
    pub closed spec fn lifecycle(&self) -> AdapterState {
        self.state
    }

    /// The parameters stored for the pending run, once configured.
    pub closed spec fn configuration(&self) -> Option<TranscriptionConfig> {
        self.config
    }

    /// Reads where the adapter stands in its lifecycle.
    pub fn current_state(&self) -> (s: AdapterState)
        ensures
            s == self.lifecycle(),
    {
        self.state
    }

    /// A fresh adapter: not yet configured, no stored parameters.
    pub fn new() -> (a: EngineAdapter)
        ensures
            a.lifecycle() == AdapterState::Unconfigured,
            a.configuration() is None,
    {
        EngineAdapter { state: AdapterState::Unconfigured, config: None }
    }

    /// Stores the parameters of the coming run; allowed exactly once, on a
    /// fresh adapter. (A model context that fails to load at this point is
    /// reported by the caller as `ModelLoadError` and the adapter is
    /// discarded.)
    pub fn configure(&mut self, config: TranscriptionConfig)
        requires
            old(self).lifecycle() == AdapterState::Unconfigured,
        ensures
            final(self).lifecycle() == AdapterState::Configured,
            final(self).configuration() == Some(config),
    {
        self.state = AdapterState::Configured;
        self.config = Some(config);
    }

    /// Marks the start of the blocking inference call: only a configured
    /// adapter may run, so a run can neither start unconfigured nor
    /// re-enter a running adapter.
    pub fn begin_run(&mut self)
        requires
            old(self).lifecycle() == AdapterState::Configured,
        ensures
            final(self).lifecycle() == AdapterState::Running,
            final(self).configuration() == old(self).configuration(),
    {
        self.state = AdapterState::Running;
    }

    /// Records that the blocking call returned successfully.
    pub fn complete(&mut self)
        requires
            old(self).lifecycle() == AdapterState::Running,
        ensures
            final(self).lifecycle() == AdapterState::Completed,
            final(self).configuration() == old(self).configuration(),
    {
        self.state = AdapterState::Completed;
    }

    /// Records that the engine reported failure; the caller surfaces it as
    /// `InferenceError`.
    pub fn fail(&mut self)
        requires
            old(self).lifecycle() == AdapterState::Running,
        ensures
            final(self).lifecycle() == AdapterState::Failed,
            final(self).configuration() == old(self).configuration(),
    {
        self.state = AdapterState::Failed;
    }
}

/// The adapter's per-segment callback step: builds the segment the engine
/// reported — start time, end time, decoded text — and pushes it onto the
/// channel, without blocking and without any other effect. The channel
/// gains exactly this one segment; `ChannelClosed` comes back, with the
/// channel unchanged, exactly when the consumer end is already gone.
pub fn handle_segment(ch: &mut SegmentChannel, start_time: i64, end_time: i64, text: String) -> (r:
    Result<(), PipelineError>)
    requires
        0 <= start_time <= end_time,
    ensures
        !old(ch).is_closed() ==> {
            &&& r == Ok::<(), PipelineError>(())
            &&& final(ch).contents() == old(ch).contents().push(
                (Segment { start_time, end_time, text }),
            )
            &&& !final(ch).is_closed()
        },
        old(ch).is_closed() ==> {
            &&& r == Err::<(), PipelineError>(PipelineError::ChannelClosed)
            &&& final(ch).contents() == old(ch).contents()
            &&& final(ch).is_closed()
        },
{
    let seg = Segment::new(start_time, end_time, text);
    ch.send(seg)
}

} // verus!
