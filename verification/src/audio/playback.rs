//! Decisions of the audio pipeline: when a stream counts as failed, what a
//! stream error means, and how buffered input is cut into chunks.
use vstd::prelude::*;

use crate::errors::AppError;

verus! {

/// Input silence longer than this marks the audio path as stale.
pub const STALE_THRESHOLD_MS: u64 = 3000u64;

/// What the audio watchdog reads from a running stream.
#[derive(Debug, Clone, Copy, PartialEq, Eq, Structural)]
pub struct StreamHealth {
    pub input_errored: bool,
    pub output_errored: bool,
    pub processing_errored: bool,
    /// Time since the stream started.
    pub elapsed_ms: u64,
    /// Time since the stream started at which input was last delivered.
    pub last_activity_ms: u64,
}

impl StreamHealth {
    /// A stream has failed when one of its parts reported an error or when
    /// no input arrived for longer than the stale threshold.
    pub fn has_failed(&self) -> (r: bool)
        ensures
            r == (self.input_errored || self.output_errored || self.processing_errored || (
            self.elapsed_ms > self.last_activity_ms && self.elapsed_ms - self.last_activity_ms
                > STALE_THRESHOLD_MS)),
    {
        if self.input_errored || self.output_errored || self.processing_errored {
            return true;
        }
        self.elapsed_ms.saturating_sub(self.last_activity_ms) > STALE_THRESHOLD_MS
    }
}

/// The error for a stream that could not be built: a device that is not
/// available is held by another program.
pub fn stream_build_error(device_not_available: bool) -> (r: AppError)
    ensures
        device_not_available ==> r == AppError::AudioDeviceInUse,
        !device_not_available ==> r == AppError::AudioStreamFailed,
{
    if device_not_available {
        AppError::AudioDeviceInUse
    } else {
        AppError::AudioStreamFailed
    }
}

/// How the processing thread handles the samples it has buffered.
#[derive(Debug, Clone, Copy, PartialEq, Eq, Structural)]
pub struct ChunkPlan {
    /// Number of chunks to process.
    pub chunks: usize,
    /// Samples in each chunk.
    pub chunk_len: usize,
    /// Samples left buffered afterwards.
    pub leftover: usize,
}

/// Cuts `buffered` samples into chunks: a processor that needs fixed chunks
/// gets as many whole chunks of `chunk_len` as there are, the rest waits;
/// any other processor gets everything at once.
pub fn plan_chunks(buffered: usize, chunk_len: usize, fixed_chunks: bool) -> (r: ChunkPlan)
    requires
        chunk_len > 0,
    ensures
        r.chunks * r.chunk_len + r.leftover == buffered,
        fixed_chunks ==> r.chunk_len == chunk_len && r.chunks == buffered / chunk_len
            && r.leftover == buffered % chunk_len,
        !fixed_chunks && buffered > 0 ==> r.chunks == 1 && r.chunk_len == buffered
            && r.leftover == 0,
        !fixed_chunks && buffered == 0 ==> r.chunks == 0 && r.leftover == 0,
{
    if fixed_chunks {
        let chunks = buffered / chunk_len;
        let leftover = buffered % chunk_len;
        assert(chunks * chunk_len + leftover == buffered) by (nonlinear_arith)
            requires
                chunks == buffered / chunk_len,
                leftover == buffered % chunk_len,
                chunk_len > 0,
        ;
        ChunkPlan { chunks, chunk_len, leftover }
    } else if buffered > 0 {
        ChunkPlan { chunks: 1, chunk_len: buffered, leftover: 0 }
    } else {
        ChunkPlan { chunks: 0, chunk_len, leftover: 0 }
    }
}

/// The processing thread sleeps (briefly) only when no new input was
/// signalled and less than a chunk is buffered.
pub fn should_wait_for_input(signalled: bool, buffered: usize, chunk_len: usize) -> (r: bool)
    ensures
        r == (!signalled && buffered < chunk_len),
{
    !signalled && buffered < chunk_len
}

/// Where an output channel takes its samples from.
#[derive(Debug, Clone, Copy, PartialEq, Eq, Structural)]
pub enum ChannelSource {
    /// The input channel with this number.
    Input(usize),
    /// The mean of all input channels.
    MixDown,
}

/// The source of output channel `channel` when `input_channels` are played
/// on `output_channels`: the same channel when the layouts agree, a mix of
/// all inputs on a single output, else the inputs repeated in turn.
pub fn channel_source(channel: usize, input_channels: usize, output_channels: usize) -> (r: ChannelSource)
    requires
        input_channels > 0,
        channel < output_channels,
    ensures
        input_channels == output_channels ==> r == ChannelSource::Input(channel),
        input_channels != output_channels && output_channels == 1 ==> r == ChannelSource::MixDown,
        input_channels != output_channels && output_channels != 1 ==> r == ChannelSource::Input(
            channel % input_channels,
        ),
        r matches ChannelSource::Input(i) ==> i < input_channels,
{
    if input_channels == output_channels {
        ChannelSource::Input(channel)
    } else if output_channels == 1 {
        ChannelSource::MixDown
    } else {
        ChannelSource::Input(channel % input_channels)
    }
}

} // verus!
