//! Stream parameters reported by the block decoder, and the derived exact
//! output length.
//!
//! `StreamInfo` is produced once, right after the key is set, and never
//! mutated. The number of sample-frames the container must declare —
//! `blockCount * samplesPerBlock - encoderDelay - encoderPadding` — is
//! computed once from it and never recomputed mid-stream.

use vstd::prelude::*;

verus! {

/// Stream parameters, read-only once produced.
#[derive(Clone, Copy, Debug, PartialEq, Eq, Structural)]
pub struct StreamInfo {
    /// Number of interleaved channels.
    pub channel_count: u16,
    /// Sample-frames per second.
    pub sampling_rate: u32,
    /// Sample-frames decoded from one block.
    pub samples_per_block: u32,
    /// Number of compressed blocks in the stream.
    pub block_count: u32,
    /// Size in bytes of one compressed block.
    pub block_size: u32,
    /// Size in bytes of the stream header that precedes the blocks.
    pub header_size: u32,
    /// Leading sample-frames to discard from the decoded output.
    pub encoder_delay: u32,
    /// Trailing sample-frames to exclude from the decoded output.
    pub encoder_padding: u32,
}

impl StreamInfo {
    /// Sample-frames decoded from the whole stream, before trimming.
    pub open spec fn total_frames(self) -> int {
        (self.block_count as int) * (self.samples_per_block as int)
    }

    /// Sample-frames the output container declares and receives.
    pub open spec fn frames_to_do(self) -> int {
        self.total_frames() - self.encoder_delay as int - self.encoder_padding as int
    }

    /// Interleaved 16-bit values decoded from one block.
    pub open spec fn values_per_block(self) -> int {
        (self.samples_per_block as int) * (self.channel_count as int)
    }

    /// Well-formed stream parameters. The trim amounts must not exceed the
    /// decoded total; there must be at least one channel and a nonzero
    /// sampling rate; and the stream's byte counts — two bytes per value,
    /// at most 68 bytes of container header, and the per-second byte rate —
    /// must fit the container's 32-bit fields.
    pub open spec fn wf(self) -> bool {
        &&& 1 <= self.channel_count
        &&& 1 <= self.sampling_rate
        &&& self.encoder_delay as int + self.encoder_padding as int <= self.total_frames()
        &&& 2 * (self.samples_per_block as int) * (self.channel_count as int) <= u32::MAX as int
        &&& 2 * (self.sampling_rate as int) * (self.channel_count as int) <= u32::MAX as int
        &&& 2 * self.total_frames() * (self.channel_count as int) + 68 <= u32::MAX as int
    }

    /// Decides `wf`: stream info that fails this check would declare a
    /// negative or unrepresentable output length and must fail fast.
    pub fn validate(&self) -> (r: bool)
        ensures
            r == self.wf(),
    {
        proof {
            assert((self.block_count as int) * (self.samples_per_block as int) < 0x1_0000_0000_0000_0000
                && 2 * (self.samples_per_block as int) * (self.channel_count as int) < 0x1_0000_0000_0000_0000
                && 2 * (self.sampling_rate as int) * (self.channel_count as int) < 0x1_0000_0000_0000_0000
                && 2 * ((self.block_count as int) * (self.samples_per_block as int)) * (self.channel_count as int) + 68
                    < 0x1_0000_0000_0000_0000_0000_0000_0000_0000) by (nonlinear_arith)
                requires
                    self.block_count <= u32::MAX,
                    self.samples_per_block <= u32::MAX,
                    self.sampling_rate <= u32::MAX,
                    self.channel_count <= u16::MAX,
            ;
        }
        let total: u64 = (self.block_count as u64) * (self.samples_per_block as u64);
        let trim: u64 = (self.encoder_delay as u64) + (self.encoder_padding as u64);
        let vpb2: u64 = 2 * (self.samples_per_block as u64) * (self.channel_count as u64);
        let rate2: u64 = 2 * (self.sampling_rate as u64) * (self.channel_count as u64);
        let bytes2: u128 = 2 * (total as u128) * (self.channel_count as u128) + 68;
        1 <= self.channel_count && 1 <= self.sampling_rate && trim <= total && vpb2 <= u32::MAX as u64
            && rate2 <= u32::MAX as u64 && bytes2 <= u32::MAX as u128
    }

    /// The exact sample-frame count the container is told at open time.
    pub fn samples_to_do(&self) -> (r: u32)
        requires
            self.wf(),
        ensures
            r == self.frames_to_do(),
    {
        proof {
            assert(self.total_frames() <= 2 * self.total_frames() * (self.channel_count as int))
                by (nonlinear_arith)
                requires
                    1 <= self.channel_count,
                    0 <= self.total_frames(),
            ;
        }
        let total: u64 = (self.block_count as u64) * (self.samples_per_block as u64);
        (total - self.encoder_delay as u64 - self.encoder_padding as u64) as u32
    }
}

} // verus!
