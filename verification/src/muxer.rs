//! The output container: a 16-bit integer PCM WAV muxer with an exact,
//! pre-declared sample-frame count.
//!
//! The muxer is told the exact total frame count when it is created. It
//! accepts sample writes in strict sequence; writing more values than
//! declared fails loudly rather than silently truncating or growing, and
//! finalizing with fewer values than declared fails rather than emitting a
//! partial-length container. The container bytes themselves come from the
//! `hound` crate at the finalize boundary.

use vstd::prelude::*;

use crate::errors::HcaError;

verus! {

/// The byte sequence `hound` produces for a 16-bit integer PCM WAV file
/// holding exactly these interleaved sample values, with this channel count
/// and sampling rate. The encoding depends on these arguments alone.
pub uninterp spec fn wav_pcm16_bytes(channels: u16, sample_rate: u32, samples: Seq<i16>) -> Seq<u8>;

/// Relies on hound::WavWriter (3.5) and its 16-bit sample writer: writes the
/// RIFF/WAVE header for `channels` interleaved channels of 16-bit integer
/// PCM at `sample_rate`, then every value of `samples` in order, and
/// finalizes the header's size fields. The bytes depend on the arguments
/// alone. With an in-memory target no write can fail, and hound's source
/// reports an unfinished final frame only when the value count is not a
/// multiple of the channel count. The bounds keep hound's own arithmetic in
/// range: it divides by the sample rate and the channel count while writing
/// the fmt chunk, computes the byte rate (two bytes per sample, times the
/// channels) in 32 bits, and holds data and file sizes in 32 bits.
#[verifier::external_body]
fn hound_write_wav16(channels: u16, sample_rate: u32, samples: &Vec<i16>) -> (r: Result<Vec<u8>, hound::Error>)
    requires
        1 <= channels,
        1 <= sample_rate,
        2 * (sample_rate as int) * (channels as int) <= u32::MAX as int,
        2 * samples@.len() + 68 <= u32::MAX as int,
    ensures
        r matches Ok(b) ==> b@ == wav_pcm16_bytes(channels, sample_rate, samples@),
        (samples@.len() as int) % (channels as int) == 0 ==> r is Ok,
{
    let mut cursor = std::io::Cursor::new(Vec::new());
    let spec = hound::WavSpec {
        channels,
        sample_rate,
        bits_per_sample: 16,
        sample_format: hound::SampleFormat::Int,
    };
    let mut writer = hound::WavWriter::new(&mut cursor, spec)?;
    let mut writer16 = writer.get_i16_writer(samples.len() as u32);
    for s in samples.iter() {
        writer16.write_sample(*s);
    }
    writer16.flush()?;
    writer.finalize()?;
    Ok(cursor.into_inner())
}

/// The error type of the `hound` crate, carried opaquely: any container
/// failure surfaces as `HcaError::ContainerWriteError`.
#[verifier::external_type_specification]
#[verifier::external_body]
pub struct ExHoundError(hound::Error);

/// A PCM container writer with a pre-declared exact sample-frame count.
pub struct ContainerMuxer {
    channels: u16,
    sample_rate: u32,
    frame_count: u32,
    samples: Vec<i16>,
}

impl ContainerMuxer {
    /// The channel count the container was created with.
    pub closed spec fn channels_spec(self) -> u16 {
        self.channels
    }

    /// The sampling rate the container was created with.
    pub closed spec fn rate_spec(self) -> u32 {
        self.sample_rate
    }

    /// The total interleaved 16-bit values the container must receive:
    /// the declared frame count times the channel count.
    pub closed spec fn declared(self) -> int {
        (self.frame_count as int) * (self.channels as int)
    }

    /// The interleaved 16-bit values written so far, in arrival order.
    pub closed spec fn written(self) -> Seq<i16> {
        self.samples@
    }

    /// Well-formed muxer: at least one channel, a nonzero sampling rate
    /// whose 32-bit byte rate is representable, and declared bytes that fit
    /// the container's 32-bit size fields.
    pub closed spec fn wf(self) -> bool {
        &&& 1 <= self.channels
        &&& 1 <= self.sample_rate
        &&& 2 * (self.sample_rate as int) * (self.channels as int) <= u32::MAX as int
        &&& 2 * self.declared() + 68 <= u32::MAX as int
        &&& self.written().len() <= self.declared()
    }

    /// Creates a muxer that will accept exactly `frame_count` frames of
    /// `channels` interleaved values each. Fails when the declared stream
    /// cannot be represented in the container's 32-bit size and rate
    /// fields: no channel, a zero sampling rate, an unrepresentable byte
    /// rate, or a data size past the 32-bit limit.
    pub fn new(channels: u16, sample_rate: u32, frame_count: u32) -> (r: Result<ContainerMuxer, HcaError>)
        ensures
            r matches Ok(m) ==> {
                &&& m.wf()
                &&& m.channels_spec() == channels
                &&& m.rate_spec() == sample_rate
                &&& m.declared() == (frame_count as int) * (channels as int)
                &&& m.written().len() == 0
            },
            (1 <= channels && 1 <= sample_rate
                && 2 * (sample_rate as int) * (channels as int) <= u32::MAX as int
                && 2 * (frame_count as int) * (channels as int) + 68 <= u32::MAX as int)
                <==> r is Ok,
            r is Err ==> r == Err::<ContainerMuxer, HcaError>(HcaError::ContainerWriteError),
    {
        proof {
            assert((frame_count as int) * (channels as int) < 0x1_0000_0000_0000
                && 2 * (frame_count as int) * (channels as int)
                    == 2 * ((frame_count as int) * (channels as int))
                && (sample_rate as int) * (channels as int) < 0x1_0000_0000_0000
                && 2 * (sample_rate as int) * (channels as int)
                    == 2 * ((sample_rate as int) * (channels as int))) by (nonlinear_arith)
                requires
                    frame_count <= u32::MAX,
                    sample_rate <= u32::MAX,
                    channels <= u16::MAX,
            ;
        }
        let declared: u64 = (frame_count as u64) * (channels as u64);
        let byte_rate: u64 = 2 * (sample_rate as u64) * (channels as u64);
        if channels >= 1 && sample_rate >= 1 && byte_rate <= u32::MAX as u64 && 2 * declared + 68
            <= u32::MAX as u64 {
            Ok(ContainerMuxer { channels, sample_rate, frame_count, samples: Vec::new() })
        } else {
            Err(HcaError::ContainerWriteError)
        }
    }

    /// Appends `count` interleaved values of `window`, starting at `start`,
    /// in strict arrival order. Writing beyond the declared total, or past
    /// the end of `window`, is refused loudly and leaves the muxer unchanged.
    pub fn write_values(&mut self, window: &Vec<i16>, start: usize, count: usize) -> (r: Result<(), HcaError>)
        requires
            old(self).wf(),
        ensures
            final(self).wf(),
            final(self).channels_spec() == old(self).channels_spec(),
            final(self).rate_spec() == old(self).rate_spec(),
            final(self).declared() == old(self).declared(),
            r is Ok <==> (old(self).written().len() + count <= old(self).declared()
                && start + count <= window@.len()),
            r is Ok ==> final(self).written()
                == old(self).written() + window@.subrange(start as int, start as int + count as int),
            r is Err ==> *final(self) == *old(self) && r == Err::<(), HcaError>(HcaError::ContainerWriteError),
    {
        proof {
            assert(0 <= self.declared() < 0x1_0000_0000_0000) by (nonlinear_arith)
                requires
                    self.frame_count <= u32::MAX,
                    self.channels <= u16::MAX,
            ;
        }
        if count > window.len() || start > window.len() - count {
            return Err(HcaError::ContainerWriteError);
        }
        let declared: u64 = (self.frame_count as u64) * (self.channels as u64);
        if (count as u64) > declared || (self.samples.len() as u64) > declared - (count as u64) {
            return Err(HcaError::ContainerWriteError);
        }
        let mut i: usize = 0;
        while i < count
            invariant
                i <= count,
                start + count <= window@.len(),
                window@.len() <= usize::MAX as int,
                old(self).samples@.len() + count <= declared,
                declared == old(self).declared(),
                self.channels == old(self).channels,
                self.sample_rate == old(self).sample_rate,
                self.frame_count == old(self).frame_count,
                self.samples@ == old(self).samples@
                    + window@.subrange(start as int, start as int + i as int),
            decreases count - i,
        {
            self.samples.push(window[start + i]);
            i += 1;
            proof {
                assert(self.samples@ == old(self).samples@
                    + window@.subrange(start as int, start as int + i as int));
            }
        }
        Ok(())
    }

    /// Finalizes the container: succeeds exactly when every declared value
    /// has been written, and then returns the complete WAV byte sequence for
    /// the written samples. A partial container is refused.
    pub fn finalize(self) -> (r: Result<Vec<u8>, HcaError>)
        requires
            self.wf(),
        ensures
            r is Ok <==> self.written().len() == self.declared(),
            r matches Ok(b) ==> b@ == wav_pcm16_bytes(self.channels_spec(), self.rate_spec(), self.written()),
    {
        let declared: u64 = (self.frame_count as u64) * (self.channels as u64);
        proof {
            assert((self.frame_count as int) * (self.channels as int) < 0x1_0000_0000_0000) by (nonlinear_arith)
                requires
                    self.frame_count <= u32::MAX,
                    self.channels <= u16::MAX,
            ;
        }
        if (self.samples.len() as u64) != declared {
            return Err(HcaError::ContainerWriteError);
        }
        proof {
            assert(((self.frame_count as int) * (self.channels as int)) % (self.channels as int) == 0)
                by (nonlinear_arith)
                requires
                    1 <= self.channels,
            ;
        }
        match hound_write_wav16(self.channels, self.sample_rate, &self.samples) {
            Ok(bytes) => Ok(bytes),
            Err(_) => Err(HcaError::ContainerWriteError),
        }
    }
}

} // verus!
