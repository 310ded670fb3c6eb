//! Stream geometry: the hardware parameters a session was negotiated with.
//!
//! A device may not grant the requested period size or count, so the values
//! held here are the ones read back after negotiation; every buffer sized by
//! this module uses these actual values.

use vstd::prelude::*;

verus! {

/// Largest frame product (period size times period count, or period size
/// times channel count) the library accepts; keeps every derived size well
/// inside an `i32`, the widest type common to the transfer interfaces.
pub const MAX_BUFFER_FRAMES: u64 = 2147483647;

/// Interleaved PCM sample encodings the transport supports.
#[derive(Clone, Copy, Debug, PartialEq, Eq, Structural)]
pub enum SampleFormat {
    SignedInt16,
    SignedInt32,
}

/// Why a set of requested stream parameters was rejected.
#[derive(Clone, Copy, Debug, PartialEq, Eq, Structural)]
pub enum ConfigurationError {
    ZeroSampleRate,
    ZeroPeriodSize,
    TooFewPeriods,
    NoChannels,
    BufferTooLarge,
}

/// Negotiated parameters of one direction of an audio stream.
#[derive(Clone, Copy, Debug, PartialEq, Eq, Structural)]
pub struct StreamGeometry {
    pub sample_rate: u32,
    pub period_size: u32,
    pub period_count: u32,
    pub channel_count: u32,
    pub sample_format: SampleFormat,
}

impl StreamGeometry {
    /// Invariant every constructed geometry satisfies.
    pub open spec fn wf(self) -> bool {
        &&& self.sample_rate >= 1
        &&& self.period_size >= 1
        &&& self.period_count >= 2
        &&& self.channel_count >= 1
        &&& self.period_size * self.period_count <= MAX_BUFFER_FRAMES
        &&& self.period_size * self.channel_count <= MAX_BUFFER_FRAMES
    }

    /// First reason the given parameters are rejected, if any.
    pub open spec fn spec_validate(self) -> Option<ConfigurationError> {
        if self.sample_rate < 1 {
            Some(ConfigurationError::ZeroSampleRate)
        } else if self.period_size < 1 {
            Some(ConfigurationError::ZeroPeriodSize)
        } else if self.period_count < 2 {
            Some(ConfigurationError::TooFewPeriods)
        } else if self.channel_count < 1 {
            Some(ConfigurationError::NoChannels)
        } else if self.period_size * self.period_count > MAX_BUFFER_FRAMES
            || self.period_size * self.channel_count > MAX_BUFFER_FRAMES {
            Some(ConfigurationError::BufferTooLarge)
        } else {
            None
        }
    }

    /// Accepts the parameters read back from a configured device, or reports
    /// the first invariant they break.
    pub fn new(
        sample_rate: u32,
        period_size: u32,
        period_count: u32,
        channel_count: u32,
        sample_format: SampleFormat,
    ) -> (r: Result<StreamGeometry, ConfigurationError>)
        ensures
            ({
                let g = StreamGeometry {
                    sample_rate,
                    period_size,
                    period_count,
                    channel_count,
                    sample_format,
                };
                match r {
                    Ok(got) => got == g && g.wf() && g.spec_validate() is None,
                    Err(e) => g.spec_validate() == Some(e),
                }
            }),
    {
        let g = StreamGeometry {
            sample_rate,
            period_size,
            period_count,
            channel_count,
            sample_format,
        };
        if sample_rate < 1 {
            return Err(ConfigurationError::ZeroSampleRate);
        }
        if period_size < 1 {
            return Err(ConfigurationError::ZeroPeriodSize);
        }
        if period_count < 2 {
            return Err(ConfigurationError::TooFewPeriods);
        }
        if channel_count < 1 {
            return Err(ConfigurationError::NoChannels);
        }
        proof {
            assert(period_size * period_count <= 0xffff_ffffu64 * 0xffff_ffffu64
                && period_size * channel_count <= 0xffff_ffffu64 * 0xffff_ffffu64)
                by (nonlinear_arith)
                requires
                    period_size <= 0xffff_ffffu64,
                    period_count <= 0xffff_ffffu64,
                    channel_count <= 0xffff_ffffu64,
            ;
        }
        if (period_size as u64) * (period_count as u64) > MAX_BUFFER_FRAMES
            || (period_size as u64) * (channel_count as u64) > MAX_BUFFER_FRAMES {
            return Err(ConfigurationError::BufferTooLarge);
        }
        Ok(g)
    }

    /// Full hardware buffer, in frames: period size times period count.
    pub fn buffer_size(&self) -> (r: u64)
        requires
            self.wf(),
        ensures
            r == self.period_size * self.period_count,
    {
        (self.period_size as u64) * (self.period_count as u64)
    }

    /// Start threshold for a playback session: the buffer must hold one full
    /// buffer minus one period of lead-in before the transport starts, so the
    /// first write cannot underrun immediately.
    pub fn start_threshold(&self) -> (r: u64)
        requires
            self.wf(),
        ensures
            r == self.period_size * self.period_count - self.period_size,
            r >= self.period_size,
    {
        proof {
            assert(self.period_size * self.period_count >= self.period_size * 2)
                by (nonlinear_arith)
                requires
                    self.period_count >= 2,
                    self.period_size >= 1,
            ;
        }
        (self.period_size as u64) * (self.period_count as u64) - (self.period_size as u64)
    }

    /// Length of the interleaved transfer buffer every transfer call uses:
    /// the actual period size times the actual channel count.
    pub fn transfer_buffer_len(&self) -> (r: usize)
        requires
            self.wf(),
        ensures
            r == self.period_size * self.channel_count,
    {
        let n: u64 = (self.period_size as u64) * (self.channel_count as u64);
        n as usize
    }

    /// Duration of one period in nanoseconds, rounded down.
    pub fn period_time_nanos(&self) -> (r: u64)
        requires
            self.wf(),
        ensures
            r == self.period_size * 1_000_000_000int / self.sample_rate as int,
    {
        (self.period_size as u64) * 1_000_000_000u64 / (self.sample_rate as u64)
    }

    /// Fresh zeroed transfer block for a 16-bit interleaved session.
    pub fn new_transfer_block(&self) -> (r: Vec<i16>)
        requires
            self.wf(),
        ensures
            r@.len() == self.period_size * self.channel_count,
            forall|i: int| 0 <= i < r@.len() ==> r@[i] == 0i16,
    {
        let n = self.transfer_buffer_len();
        let mut v: Vec<i16> = Vec::new();
        while v.len() < n
            invariant
                v@.len() <= n,
                forall|i: int| 0 <= i < v@.len() ==> v@[i] == 0i16,
            decreases n - v.len(),
        {
            v.push(0i16);
        }
        v
    }

    /// Fresh zeroed transfer block for a 32-bit interleaved session.
    pub fn new_transfer_block_s32(&self) -> (r: Vec<i32>)
        requires
            self.wf(),
        ensures
            r@.len() == self.period_size * self.channel_count,
            forall|i: int| 0 <= i < r@.len() ==> r@[i] == 0i32,
    {
        let n = self.transfer_buffer_len();
        let mut v: Vec<i32> = Vec::new();
        while v.len() < n
            invariant
                v@.len() <= n,
                forall|i: int| 0 <= i < v@.len() ==> v@[i] == 0i32,
            decreases n - v.len(),
        {
            v.push(0i32);
        }
        v
    }
}

} // verus!
