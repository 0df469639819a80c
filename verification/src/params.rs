//! Hardware and software parameter negotiation for the playback stream.
//!
//! The stream format is fixed: interleaved signed 16-bit samples, two
//! channels, 44100 Hz nearest. The buffer target of 22052 frames gives about
//! half a second of latency; the period target of 5513 frames is raised to
//! the lowest supported value at least that large, unless resampling is
//! enabled, in which case the period is negotiated to the nearest supported
//! value to 1024 frames. The software start threshold is one period short of
//! a full buffer, so playback begins only once the buffer is nearly full.

use vstd::prelude::*;

verus! {

/// Sample rate the stream is produced at, negotiated to nearest supported.
pub const SAMPLE_RATE_HZ: u64 = 44100;

/// Stereo: every frame carries one sample per channel.
pub const CHANNEL_COUNT: u64 = 2;

/// Buffer negotiation target in frames, about half a second at 44100 Hz.
pub const TARGET_BUFFER_FRAMES: u64 = 22052;

/// Period negotiation target in frames when resampling is disabled.
pub const TARGET_PERIOD_FRAMES: u64 = 5513;

/// Period negotiation target in frames when resampling is enabled.
pub const RESAMPLE_PERIOD_FRAMES: u64 = 1024;

/// Configuration fixed by the caller before a device is opened, in place of
/// ambient process state.
#[derive(Clone, Copy, PartialEq, Eq, Structural, Debug)]
pub struct SinkConfig {
    /// Enable device-side rate resampling and negotiate the short period.
    pub resample: bool,
    /// Emit the negotiated parameter values for inspection after an open.
    pub debug_dump: bool,
}

/// Capability ranges a device reports once opened. Each range is contiguous:
/// the device accepts every value between its minimum and its maximum.
#[derive(Clone, Copy, PartialEq, Eq, Structural, Debug)]
pub struct DeviceCaps {
    pub min_rate: u64,
    pub max_rate: u64,
    pub min_channels: u64,
    pub max_channels: u64,
    pub min_buffer_frames: u64,
    pub max_buffer_frames: u64,
    pub min_period_frames: u64,
    pub max_period_frames: u64,
}

impl DeviceCaps {
    /// Every range is non-empty and starts at one frame or above.
    pub open spec fn wf(self) -> bool {
        &&& 1 <= self.min_rate <= self.max_rate
        &&& 1 <= self.min_channels <= self.max_channels
        &&& 1 <= self.min_buffer_frames <= self.max_buffer_frames
        &&& 1 <= self.min_period_frames <= self.max_period_frames
    }
}

/// The parameter set a successful negotiation fixes for the device.
#[derive(Clone, Copy, PartialEq, Eq, Structural, Debug)]
pub struct PcmParams {
    pub rate: u64,
    pub channels: u64,
    pub buffer_frames: u64,
    pub period_frames: u64,
    /// Frames that must be queued before the device starts playing.
    pub start_threshold: u64,
    pub resample: bool,
}

/// Why a negotiation was rejected; any of these is fatal to the open.
#[derive(Clone, Copy, PartialEq, Eq, Structural, Debug)]
pub enum NegotiationError {
    /// The device cannot play two channels.
    ChannelsUnsupported,
    /// No supported period size reaches the target and resampling is off.
    PeriodUnsupported,
    /// The negotiated period would not fit into the negotiated buffer.
    PeriodExceedsBuffer,
}

/// The supported value nearest to `target` within a contiguous range.
pub open spec fn nearest_in_range_spec(target: u64, lo: u64, hi: u64) -> u64
    recommends
        lo <= hi,
{
    if target < lo {
        lo
    } else if target > hi {
        hi
    } else {
        target
    }
}

/// The lowest supported value that is at least `target`, within a range whose
/// maximum already reaches `target`.
pub open spec fn lowest_at_least_spec(target: u64, lo: u64) -> u64 {
    if target < lo {
        lo
    } else {
        target
    }
}

/// What negotiation fixes for a device with capabilities `caps` under
/// configuration `config`, or why it is rejected.
pub open spec fn negotiate_spec(caps: DeviceCaps, config: SinkConfig) -> Result<
    PcmParams,
    NegotiationError,
> {
    if !(caps.min_channels <= CHANNEL_COUNT && CHANNEL_COUNT <= caps.max_channels) {
        Err(NegotiationError::ChannelsUnsupported)
    } else if !config.resample && caps.max_period_frames < TARGET_PERIOD_FRAMES {
        Err(NegotiationError::PeriodUnsupported)
    } else {
        let buffer = nearest_in_range_spec(
            TARGET_BUFFER_FRAMES,
            caps.min_buffer_frames,
            caps.max_buffer_frames,
        );
        let period = if config.resample {
            nearest_in_range_spec(
                RESAMPLE_PERIOD_FRAMES,
                caps.min_period_frames,
                caps.max_period_frames,
            )
        } else {
            lowest_at_least_spec(TARGET_PERIOD_FRAMES, caps.min_period_frames)
        };
        if buffer < period {
            Err(NegotiationError::PeriodExceedsBuffer)
        } else {
            Ok(
                PcmParams {
                    rate: nearest_in_range_spec(SAMPLE_RATE_HZ, caps.min_rate, caps.max_rate),
                    channels: CHANNEL_COUNT,
                    buffer_frames: buffer,
                    period_frames: period,
                    start_threshold: (buffer - period) as u64,
                    resample: config.resample,
                },
            )
        }
    }
}

/// The supported value nearest to `target` in the range `lo ..= hi`.
pub fn nearest_in_range(target: u64, lo: u64, hi: u64) -> (r: u64)
    requires
        lo <= hi,
    ensures
        r == nearest_in_range_spec(target, lo, hi),
        lo <= r <= hi,
{
    if target < lo {
        lo
    } else if target > hi {
        hi
    } else {
        target
    }
}

/// Negotiate the full parameter set against the capabilities a freshly
/// opened device reported. Success and every rejection are fixed by
/// `negotiate_spec`.
pub fn negotiate(caps: &DeviceCaps, config: SinkConfig) -> (r: Result<
    PcmParams,
    NegotiationError,
>)
    requires
        caps.wf(),
    ensures
        r == negotiate_spec(*caps, config),
{
    if !(caps.min_channels <= CHANNEL_COUNT && CHANNEL_COUNT <= caps.max_channels) {
        return Err(NegotiationError::ChannelsUnsupported);
    }
    if !config.resample && caps.max_period_frames < TARGET_PERIOD_FRAMES {
        return Err(NegotiationError::PeriodUnsupported);
    }
    let buffer = nearest_in_range(
        TARGET_BUFFER_FRAMES,
        caps.min_buffer_frames,
        caps.max_buffer_frames,
    );
    let period = if config.resample {
        nearest_in_range(RESAMPLE_PERIOD_FRAMES, caps.min_period_frames, caps.max_period_frames)
    } else if TARGET_PERIOD_FRAMES < caps.min_period_frames {
        caps.min_period_frames
    } else {
        TARGET_PERIOD_FRAMES
    };
    if buffer < period {
        return Err(NegotiationError::PeriodExceedsBuffer);
    }
    let rate = nearest_in_range(SAMPLE_RATE_HZ, caps.min_rate, caps.max_rate);
    Ok(
        PcmParams {
            rate,
            channels: CHANNEL_COUNT,
            buffer_frames: buffer,
            period_frames: period,
            start_threshold: buffer - period,
            resample: config.resample,
        },
    )
}

/// The negotiated buffer holds at least the target number of frames, unless
/// the device's maximum is smaller, in which case that maximum is taken.
pub proof fn lemma_buffer_bounds(caps: DeviceCaps, config: SinkConfig)
    requires
        caps.wf(),
        negotiate_spec(caps, config) is Ok,
    ensures
        ({
            let p = negotiate_spec(caps, config).unwrap();
            &&& caps.max_buffer_frames >= TARGET_BUFFER_FRAMES ==> p.buffer_frames
                >= TARGET_BUFFER_FRAMES
            &&& caps.max_buffer_frames < TARGET_BUFFER_FRAMES ==> p.buffer_frames
                == caps.max_buffer_frames
            &&& caps.min_buffer_frames <= p.buffer_frames <= caps.max_buffer_frames
        }),
{
}

/// Without resampling the negotiated period reaches the target; with
/// resampling it is the supported value nearest to the short target.
pub proof fn lemma_period_policy(caps: DeviceCaps, config: SinkConfig)
    requires
        caps.wf(),
        negotiate_spec(caps, config) is Ok,
    ensures
        ({
            let p = negotiate_spec(caps, config).unwrap();
            &&& !config.resample ==> p.period_frames >= TARGET_PERIOD_FRAMES
            &&& config.resample ==> p.period_frames == nearest_in_range_spec(
                RESAMPLE_PERIOD_FRAMES,
                caps.min_period_frames,
                caps.max_period_frames,
            )
        }),
{
}

/// Every successful negotiation sets the start threshold to exactly the
/// buffer size less one period.
pub proof fn lemma_start_threshold(caps: DeviceCaps, config: SinkConfig)
    requires
        caps.wf(),
        negotiate_spec(caps, config) is Ok,
    ensures
        ({
            let p = negotiate_spec(caps, config).unwrap();
            p.start_threshold == p.buffer_frames - p.period_frames
        }),
{
}

} // verus!
