//! Audio flow controller: paces delivery of emulator-generated audio frames
//! to a bounded host-side queue.
//!
//! The host exposes two primitives — an occupancy query for its audio queue
//! and a sleep — and the controller decides, from one occupancy reading,
//! whether a frame may be enqueued now or how long to sleep before asking
//! again. Those decisions are computed here; the foreign calls themselves are
//! made by the thin adapter that owns the boundary.

use vstd::prelude::*;

verus! {

/// Bit depth of one audio sample as delivered to the host.
pub const SAMPLE_SIZE_BITS: u32 = 32;

/// Sample rate of the audio stream, in frames per second.
pub const SAMPLE_RATE: u32 = 22_050;

/// Number of interleaved channels in the audio stream.
pub const CHANNELS: u32 = 2;

/// Bytes occupied by one audio sample: `SAMPLE_SIZE_BITS / 8`.
pub const BYTES_PER_SAMPLE: usize = 4;

/// Bytes the stream produces per second of wall-clock time:
/// `SAMPLE_RATE * CHANNELS * BYTES_PER_SAMPLE`.
pub const BYTES_PER_SECOND: usize = 176_400;

/// Samples per frame of the emulation core's bounded in-process audio queue;
/// the host-side maximum mirrors that queue's capacity.
pub const AUDIO_BUFFER_SIZE: usize = 1024;

/// Depth of the core's bounded in-process audio queue, in frames.
pub const AUDIO_QUEUE_LEN: usize = 4;

/// Maximum bytes allowed to sit in the host's audio queue before
/// backpressure applies: `AUDIO_BUFFER_SIZE * BYTES_PER_SAMPLE *
/// AUDIO_QUEUE_LEN`.
pub const MAX_HOST_BUFFER_BYTES: usize = 16_384;

/// Sample frames the host's audio callback processes per invocation.
pub const AUDIO_QUANTUM_FRAMES: u32 = 128;

/// One host audio-processing quantum, in microseconds:
/// `AUDIO_QUANTUM_FRAMES * 1_000_000 / SAMPLE_RATE`, rounded down.
pub const AUDIO_QUANTUM_MICROS: u64 = 5_804;

/// Safety factor applied to the drain-time estimate, as a numerator over
/// one million: sleeps are scaled to three quarters of the estimate so the
/// loop wakes before the queue has fully drained. This is a tuning constant,
/// not a derived value.
pub const SLEEP_SCALE_MICROS: u64 = 750_000;

/// Flow controller for the host audio queue.
///
/// The bounds are configuration constants of the deployment, carried as
/// fields so the pacing logic assumes nothing about their particular values.
pub struct JsAudioSink {
    /// Maximum bytes allowed in the host queue.
    pub max_buffer_bytes: usize,
    /// Drain rate of the host queue, in bytes per second.
    pub bytes_per_second: usize,
    /// Upper bound on one sleep, in microseconds.
    pub quantum_micros: u64,
}

impl JsAudioSink {
    /// A configuration the pacing logic can work with: a positive drain rate.
    pub open spec fn wf(&self) -> bool {
        self.bytes_per_second >= 1
    }

    /// Host queue headroom left once a frame of `frame_bytes` is accepted:
    /// the occupancy at or below which the frame may be enqueued immediately.
    pub open spec fn spec_max_fill(&self, frame_bytes: int) -> int {
        if frame_bytes <= self.max_buffer_bytes {
            self.max_buffer_bytes - frame_bytes
        } else {
            0
        }
    }

    /// Sleep duration decided for an occupancy reading `occupancy` above the
    /// threshold: the estimated time to drain the excess, scaled by the
    /// safety factor and clamped to one audio quantum.
    pub open spec fn spec_sleep_micros(&self, occupancy: int, frame_bytes: int) -> int {
        let excess = occupancy - self.spec_max_fill(frame_bytes);
        let scaled = excess * SLEEP_SCALE_MICROS / self.bytes_per_second as int;
        if scaled > self.quantum_micros {
            self.quantum_micros as int
        } else {
            scaled
        }
    }

    /// Builds the controller with the deployment configuration.
    pub fn new() -> (sink: JsAudioSink)
        ensures
            sink.max_buffer_bytes == MAX_HOST_BUFFER_BYTES,
            sink.bytes_per_second == BYTES_PER_SECOND,
            sink.quantum_micros == AUDIO_QUANTUM_MICROS,
            sink.max_buffer_bytes
                == AUDIO_BUFFER_SIZE as int * BYTES_PER_SAMPLE as int * AUDIO_QUEUE_LEN as int,
            sink.bytes_per_second
                == SAMPLE_RATE as int * CHANNELS as int * BYTES_PER_SAMPLE as int,
            sink.quantum_micros
                == AUDIO_QUANTUM_FRAMES as int * 1_000_000 / SAMPLE_RATE as int,
            BYTES_PER_SAMPLE == SAMPLE_SIZE_BITS as int / 8,
            sink.wf(),
    {
        JsAudioSink {
            max_buffer_bytes: MAX_HOST_BUFFER_BYTES,
            bytes_per_second: BYTES_PER_SECOND,
            quantum_micros: AUDIO_QUANTUM_MICROS,
        }
    }

    /// Builds a controller with explicit bounds.
    pub fn with_config(
        max_buffer_bytes: usize,
        bytes_per_second: usize,
        quantum_micros: u64,
    ) -> (sink: JsAudioSink)
        requires
            bytes_per_second >= 1,
        ensures
            sink.max_buffer_bytes == max_buffer_bytes,
            sink.bytes_per_second == bytes_per_second,
            sink.quantum_micros == quantum_micros,
            sink.wf(),
    {
        JsAudioSink { max_buffer_bytes, bytes_per_second, quantum_micros }
    }

    /// Bytes a frame of `samples` samples occupies once reinterpreted as a
    /// raw byte sequence.
    pub fn frame_byte_len(&self, samples: usize) -> (len: usize)
        requires
            samples * BYTES_PER_SAMPLE <= usize::MAX,
        ensures
            len == samples * BYTES_PER_SAMPLE,
    {
        samples * BYTES_PER_SAMPLE
    }

    /// One iteration of the wait loop's decision, from a fresh host
    /// occupancy reading.
    ///
    /// Returns `None` when the frame may be enqueued now: either the host
    /// reported a negative occupancy (unknown/unbounded — treated as
    /// headroom available) or the reading leaves room for the frame under
    /// the configured maximum. Otherwise returns the sleep duration in
    /// microseconds, after which the caller must take a fresh reading and
    /// decide again.
    pub fn wait_decision(&self, occupancy: i32, frame_bytes: usize) -> (wait: Option<u64>)
        requires
            self.wf(),
        ensures
            occupancy < 0 ==> wait is None,
            0 <= occupancy && occupancy <= self.spec_max_fill(frame_bytes as int)
                ==> wait is None,
            occupancy > self.spec_max_fill(frame_bytes as int) && occupancy >= 0
                ==> wait == Some(self.spec_sleep_micros(occupancy as int, frame_bytes as int) as u64),
            wait matches Some(d) ==> 0 <= d <= self.quantum_micros,
    {
        let max_fill = if frame_bytes <= self.max_buffer_bytes {
            self.max_buffer_bytes - frame_bytes
        } else {
            0
        };
        if occupancy < 0 || occupancy as usize <= max_fill {
            return None;
        }
        // Estimate how long the host needs to drain the excess so the caller
        // can sleep instead of spinning, leaving headroom for jitter and
        // waiting at most one audio quantum.
        let excess = occupancy as usize - max_fill;
        assert(excess <= i32::MAX);
        let scaled = excess as u64 * SLEEP_SCALE_MICROS / self.bytes_per_second as u64;
        let wait = if scaled > self.quantum_micros {
            self.quantum_micros
        } else {
            scaled
        };
        Some(wait)
    }
}

} // verus!
