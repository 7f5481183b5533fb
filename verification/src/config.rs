//! The one capture format the bridge supports: mono, signed 16-bit PCM at
//! 16 kHz, delivered in chunks of 4096 samples.

use vstd::prelude::*;

verus! {

/// Samples per second.
pub const SAMPLE_RATE_HZ: u32 = 16000;

/// Channels per frame: mono.
pub const CHANNEL_COUNT: u16 = 1;

/// Bits per sample: signed 16-bit PCM.
pub const BITS_PER_SAMPLE: u16 = 16;

/// Samples per chunk handed over by the platform.
pub const CHUNK_SAMPLES: usize = 4096;

/// The configuration a capture stream is opened with. Every field is fixed
/// when the value is made and there is no way to change one afterwards.
#[derive(Clone, Copy, Debug)]
pub struct CaptureConfig {
    sample_rate_hz: u32,
    channel_count: u16,
    bits_per_sample: u16,
    chunk_samples: usize,
}

impl CaptureConfig {
    /// The supported format is the only one a configuration can hold.
    #[verifier::type_invariant]
    spec fn is_supported_format(self) -> bool {
        self == Self::standard()
    }

    /// The supported format, for use in contracts.
    pub closed spec fn standard() -> CaptureConfig {
        CaptureConfig {
            sample_rate_hz: SAMPLE_RATE_HZ,
            channel_count: CHANNEL_COUNT,
            bits_per_sample: BITS_PER_SAMPLE,
            chunk_samples: CHUNK_SAMPLES,
        }
    }

    /// The supported format.
    pub fn new() -> (config: CaptureConfig)
        ensures
            config == CaptureConfig::standard(),
    {
        CaptureConfig {
            sample_rate_hz: SAMPLE_RATE_HZ,
            channel_count: CHANNEL_COUNT,
            bits_per_sample: BITS_PER_SAMPLE,
            chunk_samples: CHUNK_SAMPLES,
        }
    }

    /// Samples per second.
    pub fn sample_rate_hz(&self) -> (rate: u32)
        ensures
            *self == CaptureConfig::standard(),
            rate == SAMPLE_RATE_HZ,
    {
        proof {
            use_type_invariant(self);
        }
        self.sample_rate_hz
    }

    /// Channels per frame.
    pub fn channel_count(&self) -> (count: u16)
        ensures
            *self == CaptureConfig::standard(),
            count == CHANNEL_COUNT,
    {
        proof {
            use_type_invariant(self);
        }
        self.channel_count
    }

    /// Bits per sample.
    pub fn bits_per_sample(&self) -> (bits: u16)
        ensures
            *self == CaptureConfig::standard(),
            bits == BITS_PER_SAMPLE,
    {
        proof {
            use_type_invariant(self);
        }
        self.bits_per_sample
    }

    /// Samples per chunk.
    pub fn chunk_samples(&self) -> (samples: usize)
        ensures
            *self == CaptureConfig::standard(),
            samples == CHUNK_SAMPLES,
    {
        proof {
            use_type_invariant(self);
        }
        self.chunk_samples
    }

    /// The smallest buffer, in bytes, that holds one chunk: a capture stream
    /// must be sized to at least this much.
    pub fn chunk_bytes(&self) -> (bytes: usize)
        ensures
            bytes == CHUNK_SAMPLES * CHANNEL_COUNT * (BITS_PER_SAMPLE / 8),
            bytes == 8192,
    {
        proof {
            use_type_invariant(self);
        }
        self.chunk_samples * 2
    }
}

} // verus!
