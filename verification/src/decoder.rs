//! The block-decoder capability the pipeline orchestrates.
//!
//! The actual bitstream transform (turning one compressed block into PCM
//! samples) is an external collaborator behind this interface: the pipeline
//! depends only on the interface, never on a decoder's internals, so a
//! native-library adapter or a pure-software decoder can stand behind it
//! interchangeably. The pipeline serializes its calls in strict order:
//! signature probe, header parse, key set, info query, then one block-decode
//! and sample-read per block.
//!
//! Each implementation fixes, through the associated spec functions, what
//! its probe reports, which headers it accepts, the stream parameters it
//! derives, and the status and samples of each block decode as functions of
//! the stream parameters, the key and the block bytes. The pipeline's own
//! contracts are stated over these, so what one decode call returns is
//! determined by the input buffer, the keycode and the subkey alone.

use vstd::prelude::*;

use crate::info::StreamInfo;

verus! {

/// `win` padded with zero samples to length `n`, truncated if longer.
pub open spec fn padded_to(win: Seq<i16>, n: int) -> Seq<i16> {
    Seq::new(n as nat, |j: int| if j < win.len() { win[j] } else { 0i16 })
}

/// An opaque decoder holding per-stream decode state.
pub trait AudioBlockDecoder: Sized {
    /// The header length this decoder's signature probe reports for these
    /// probe bytes; negative means the signature is not recognised.
    open spec fn spec_probe(probe: Seq<u8>) -> int {
        arbitrary()
    }

    /// Whether this decoder accepts the header of `header_len` bytes at the
    /// start of `buffer`.
    open spec fn spec_header_ok(buffer: Seq<u8>, header_len: u32) -> bool {
        arbitrary()
    }

    /// The stream parameters this decoder derives from an accepted header.
    open spec fn spec_info(buffer: Seq<u8>, header_len: u32) -> StreamInfo {
        arbitrary()
    }

    /// The status of decoding one block under these stream parameters and
    /// this key: negative exactly when the block is rejected.
    open spec fn spec_block_status(info: StreamInfo, key: u64, block: Seq<u8>) -> i32 {
        arbitrary()
    }

    /// The samples an accepted block decodes to under these stream
    /// parameters and this key.
    open spec fn spec_block_samples(info: StreamInfo, key: u64, block: Seq<u8>) -> Seq<i16> {
        arbitrary()
    }

    /// Whether this instance has parsed a header.
    open spec fn ready(self) -> bool {
        arbitrary()
    }

    /// The stream parameters of the parsed header.
    open spec fn info(self) -> StreamInfo {
        arbitrary()
    }

    /// The key installed by the last key-setting call.
    open spec fn key(self) -> u64 {
        arbitrary()
    }

    /// The samples of the most recently decoded block.
    open spec fn window(self) -> Seq<i16> {
        arbitrary()
    }

    /// Probes the first bytes of a stream and reports the header length,
    /// negative when the signature is not recognised.
    fn is_supported_format(probe: &[u8]) -> (r: i32)
        ensures
            r as int == Self::spec_probe(probe@),
    ;

    /// Creates a fresh, fully valid decoder instance with no stream state.
    fn initialize() -> (r: Self)
        ensures
            !r.ready(),
    ;

    /// Parses the stream header of `header_len` bytes at the start of
    /// `buffer`; a negative status rejects the header.
    fn parse_header(&mut self, buffer: &[u8], header_len: u32) -> (r: i32)
        ensures
            r >= 0 <==> Self::spec_header_ok(buffer@, header_len),
            r >= 0 ==> final(self).ready() && final(self).info() == Self::spec_info(
                buffer@,
                header_len,
            ),
            r < 0 ==> !final(self).ready(),
            final(self).key() == old(self).key(),
    ;

    /// Installs the effective decryption key. Always safe to call; always
    /// called, even when the stream uses no encryption.
    fn set_key(&mut self, key: u64)
        ensures
            final(self).key() == key,
            final(self).ready() == old(self).ready(),
            final(self).info() == old(self).info(),
            final(self).window() == old(self).window(),
    ;

    /// Reports the stream parameters after a successful header parse.
    fn get_info(&self) -> (r: Result<StreamInfo, i32>)
        ensures
            self.ready() ==> r == Ok::<StreamInfo, i32>(self.info()),
            !self.ready() ==> r is Err,
    ;

    /// Decodes one compressed block; a negative status means the block is
    /// unrecoverably corrupt.
    fn decode_block(&mut self, block: &[u8]) -> (r: i32)
        ensures
            final(self).ready() == old(self).ready(),
            final(self).info() == old(self).info(),
            final(self).key() == old(self).key(),
            old(self).ready() ==> r == Self::spec_block_status(
                old(self).info(),
                old(self).key(),
                block@,
            ),
            old(self).ready() && r >= 0 ==> final(self).window() == Self::spec_block_samples(
                old(self).info(),
                old(self).key(),
                block@,
            ),
            !old(self).ready() ==> r < 0,
    ;

    /// Fills `dest` with the most recently decoded block's interleaved
    /// 16-bit samples, zero-padded or truncated to the destination's
    /// length; assumed always to succeed once `decode_block` succeeded, and
    /// never resizes the destination.
    fn read_samples(&mut self, dest: &mut Vec<i16>)
        ensures
            final(dest)@ == padded_to(old(self).window(), old(dest)@.len() as int),
            final(self).ready() == old(self).ready(),
            final(self).info() == old(self).info(),
            final(self).key() == old(self).key(),
            final(self).window() == old(self).window(),
    ;
}

/// Checks the header length reported by the decoder's signature probe
/// against the raw buffer: accepted exactly when it is not negative, does
/// not exceed the sanity ceiling of 4096 bytes, and fits inside the buffer.
pub fn header_size_acceptable(header_size: i32, buffer_len: usize) -> (r: bool)
    ensures
        r <==> (0 <= header_size <= 4096 && header_size as int <= buffer_len as int),
{
    0 <= header_size && header_size <= 4096 && header_size as usize <= buffer_len
}

} // verus!
