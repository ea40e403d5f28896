//! Decoder pipeline for a block-structured, optionally keyed audio bitstream.
//!
//! The pipeline validates the stream header, derives the effective key,
//! drives an opaque per-block decoder, trims the encoder's lead delay and
//! trail padding sample-accurately, and muxes the result into a 16-bit
//! integer PCM WAV container whose declared length exactly matches the
//! samples written.

use vstd::prelude::*;

pub mod decoder;
pub mod errors;
pub mod info;
pub mod keys;
pub mod muxer;
pub mod rawpcm;
pub mod trim;

use crate::decoder::AudioBlockDecoder;
use crate::decoder::header_size_acceptable;
use crate::errors::HcaError;
use crate::info::StreamInfo;
use crate::keys::derive_key;
use crate::keys::spec_derive_key;
use crate::muxer::ContainerMuxer;
use crate::muxer::wav_pcm16_bytes;
use crate::trim::all_blocks_good;
use crate::trim::block_bytes_at;
use crate::trim::decoded_history;
use crate::trim::emitted_of;
use crate::trim::is_blocks_needed;
use crate::trim::lemma_blocks_needed_unique;
use crate::trim::run_decode_loop;

verus! {

/// The header length `D`'s signature probe reports for this buffer's first
/// 8 bytes.
pub open spec fn probe_of<D: AudioBlockDecoder>(buffer: Seq<u8>) -> int {
    D::spec_probe(buffer.subrange(0, 8))
}

/// The probe-stage rejection: input too small for the 8-byte signature
/// probe, or a reported header length that is negative, above the
/// 4096-byte sanity ceiling, or past the end of the buffer.
pub open spec fn input_rejected<D: AudioBlockDecoder>(buffer: Seq<u8>) -> bool {
    ||| buffer.len() < 8
    ||| probe_of::<D>(buffer) < 0
    ||| probe_of::<D>(buffer) > 4096
    ||| probe_of::<D>(buffer) > buffer.len()
}

/// The stream parameters the decode call works with.
pub open spec fn stream_info_of<D: AudioBlockDecoder>(buffer: Seq<u8>) -> StreamInfo {
    D::spec_info(buffer, probe_of::<D>(buffer) as u32)
}

/// Whether the decode call reaches the block loop: the probe accepts the
/// input, the decoder accepts the header, and the derived stream
/// parameters are well-formed.
pub open spec fn stream_accepted<D: AudioBlockDecoder>(buffer: Seq<u8>) -> bool {
    &&& !input_rejected::<D>(buffer)
    &&& D::spec_header_ok(buffer, probe_of::<D>(buffer) as u32)
    &&& stream_info_of::<D>(buffer).wf()
}

/// Whether `bytes` is the output a successful decode of this buffer with
/// this keycode and subkey must return, with `n` the block count consumed:
/// the WAV encoding of the decoder's history for the first `n` blocks,
/// with the lead delay dropped from the front and exactly the declared
/// frame count kept.
pub open spec fn ok_bytes_with<D: AudioBlockDecoder>(
    buffer: Seq<u8>,
    keycode: u64,
    subkey: u16,
    bytes: Seq<u8>,
    n: int,
) -> bool {
    let info = stream_info_of::<D>(buffer);
    let key = spec_derive_key(keycode, subkey);
    &&& is_blocks_needed(info, n)
    &&& bytes == wav_pcm16_bytes(
        info.channel_count,
        info.sampling_rate,
        emitted_of(decoded_history::<D>(buffer, info, key, n), info),
    )
}

/// The output of a successful decode, determined by the buffer, the
/// keycode and the subkey alone (the consumed block count is unique:
/// `lemma_blocks_needed_unique`).
pub open spec fn decode_ok_bytes<D: AudioBlockDecoder>(
    buffer: Seq<u8>,
    keycode: u64,
    subkey: u16,
    bytes: Seq<u8>,
) -> bool {
    exists|n: int| #[trigger] ok_bytes_with::<D>(buffer, keycode, subkey, bytes, n)
}

/// Whether a decode of this buffer with this keycode and subkey succeeds:
/// the stream is accepted and every block needed to cover the lead delay
/// and the declared target lies inside the buffer and decodes with a
/// non-negative status.
pub open spec fn decode_succeeds<D: AudioBlockDecoder>(
    buffer: Seq<u8>,
    keycode: u64,
    subkey: u16,
) -> bool {
    &&& stream_accepted::<D>(buffer)
    &&& exists|n: int|
        #[trigger] is_blocks_needed(stream_info_of::<D>(buffer), n) && all_blocks_good::<D>(
            buffer,
            stream_info_of::<D>(buffer),
            spec_derive_key(keycode, subkey),
            n,
        )
}

/// Decodes a whole keyed bitstream buffer into a 16-bit integer PCM WAV
/// container, using the block decoder `D`.
///
/// The input is validated before any decoder state exists: a buffer shorter
/// than the 8-byte signature probe, or a probed header length that is
/// negative, above the 4096-byte sanity ceiling, or past the end of the
/// buffer, is rejected as `InvalidInput` — exactly then. The decoder
/// rejecting the header is `UnsupportedHeader`, ill-formed stream
/// parameters are `InfoExtractionFailed`, each exactly then, and the
/// container boundary never fails. The effective key is always set, even
/// for streams that use no encryption. The call succeeds exactly when every
/// needed block is present and decodes, and its output is determined by
/// the arguments alone; every failure is fatal to this single call, and no
/// partial container is ever returned.
pub fn decode_hca<D: AudioBlockDecoder>(buffer: &[u8], keycode: u64, subkey: u16) -> (r: Result<
    Vec<u8>,
    HcaError,
>)
    ensures
        r == Err::<Vec<u8>, HcaError>(HcaError::InvalidInput) <==> input_rejected::<D>(buffer@),
        r == Err::<Vec<u8>, HcaError>(HcaError::UnsupportedHeader) <==> (!input_rejected::<D>(
            buffer@,
        ) && !D::spec_header_ok(buffer@, probe_of::<D>(buffer@) as u32)),
        r == Err::<Vec<u8>, HcaError>(HcaError::InfoExtractionFailed) <==> (!input_rejected::<D>(
            buffer@,
        ) && D::spec_header_ok(buffer@, probe_of::<D>(buffer@) as u32) && !stream_info_of::<D>(
            buffer@,
        ).wf()),
        r != Err::<Vec<u8>, HcaError>(HcaError::ContainerWriteError),
        r is Ok <==> decode_succeeds::<D>(buffer@, keycode, subkey),
        r matches Ok(bytes) ==> decode_ok_bytes::<D>(buffer@, keycode, subkey, bytes@),
        r == Err::<Vec<u8>, HcaError>(HcaError::UnexpectedEof) ==> stream_accepted::<D>(buffer@)
            && (stream_info_of::<D>(buffer@).header_size as int) + (stream_info_of::<D>(
            buffer@,
        ).block_count as int) * (stream_info_of::<D>(buffer@).block_size as int) > buffer@.len(),
        r matches Err(HcaError::BlockDecodeError(idx, st)) ==> stream_accepted::<D>(buffer@) && 1
            <= idx && st == D::spec_block_status(
            stream_info_of::<D>(buffer@),
            spec_derive_key(keycode, subkey),
            block_bytes_at(buffer@, stream_info_of::<D>(buffer@), idx as int - 1),
        ) && st < 0,
{
    if buffer.len() < 8 {
        return Err(HcaError::InvalidInput);
    }
    let probe = vstd::slice::slice_subrange(buffer, 0, 8);
    let header_size = D::is_supported_format(probe);
    if !header_size_acceptable(header_size, buffer.len()) {
        return Err(HcaError::InvalidInput);
    }
    let mut dec = D::initialize();
    let status = dec.parse_header(buffer, header_size as u32);
    if status < 0 {
        return Err(HcaError::UnsupportedHeader);
    }
    dec.set_key(derive_key(keycode, subkey));
    let ghost key = spec_derive_key(keycode, subkey);
    let info = match dec.get_info() {
        Ok(i) => i,
        Err(_) => {
            proof {
                assert(false);
            }
            return Err(HcaError::InfoExtractionFailed);
        },
    };
    proof {
        assert(info == stream_info_of::<D>(buffer@));
    }
    if !info.validate() {
        return Err(HcaError::InfoExtractionFailed);
    }
    let todo = info.samples_to_do();
    proof {
        assert(2 * (todo as int) * (info.channel_count as int) <= 2 * info.total_frames() * (
        info.channel_count as int)) by (nonlinear_arith)
            requires
                0 <= todo as int <= info.total_frames(),
                0 <= info.channel_count as int,
        ;
    }
    let mut muxer = match ContainerMuxer::new(info.channel_count, info.sampling_rate, todo) {
        Ok(m) => m,
        Err(e) => {
            proof {
                assert(false);
            }
            return Err(e);
        },
    };
    let hist = match run_decode_loop(&mut dec, buffer, &info, todo, &mut muxer) {
        Ok(h) => h,
        Err(e) => {
            proof {
                if e == HcaError::UnexpectedEof {
                    assert(!decode_succeeds::<D>(buffer@, keycode, subkey));
                } else {
                    assert(!decode_succeeds::<D>(buffer@, keycode, subkey));
                }
            }
            return Err(e);
        },
    };
    proof {
        let n = choose|n: int|
            #[trigger] is_blocks_needed(info, n) && hist@ == decoded_history::<D>(
                buffer@,
                info,
                key,
                n,
            );
        assert(is_blocks_needed(stream_info_of::<D>(buffer@), n) && all_blocks_good::<D>(
            buffer@,
            stream_info_of::<D>(buffer@),
            key,
            n,
        )) by {
            let m = choose|m: int|
                #[trigger] is_blocks_needed(info, m) && all_blocks_good::<D>(buffer@, info, key, m);
            lemma_blocks_needed_unique(info, n, m);
        }
        assert(decode_succeeds::<D>(buffer@, keycode, subkey));
    }
    match muxer.finalize() {
        Ok(bytes) => {
            proof {
                let n = choose|n: int|
                    #[trigger] is_blocks_needed(info, n) && hist@ == decoded_history::<D>(
                        buffer@,
                        info,
                        key,
                        n,
                    );
                assert(ok_bytes_with::<D>(buffer@, keycode, subkey, bytes@, n));
            }
            Ok(bytes)
        },
        Err(e) => {
            proof {
                assert(false);
            }
            Err(e)
        },
    }
}

/// Law: one decode call is a pure function of its arguments: two
/// successful decodes of the same buffer with the same keycode and subkey
/// return byte-identical containers.
pub proof fn lemma_decode_hca_idempotent<D: AudioBlockDecoder>(
    buffer: Seq<u8>,
    keycode: u64,
    subkey: u16,
    b1: Seq<u8>,
    b2: Seq<u8>,
)
    requires
        decode_ok_bytes::<D>(buffer, keycode, subkey, b1),
        decode_ok_bytes::<D>(buffer, keycode, subkey, b2),
    ensures
        b1 == b2,
{
    let n1 = choose|n: int| #[trigger] ok_bytes_with::<D>(buffer, keycode, subkey, b1, n);
    let n2 = choose|n: int| #[trigger] ok_bytes_with::<D>(buffer, keycode, subkey, b2, n);
    lemma_blocks_needed_unique(stream_info_of::<D>(buffer), n1, n2);
}

} // verus!
