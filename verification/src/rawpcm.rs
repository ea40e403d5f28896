//! A pure-software block decoder behind the `AudioBlockDecoder` capability:
//! an uncompressed stream variant whose blocks carry raw little-endian
//! 16-bit PCM values.
//!
//! The stream header is 40 bytes or more: a 4-byte signature, the header
//! length, then the stream parameters, all little-endian. Each block is
//! read as consecutive little-endian 16-bit values; a block too short to
//! fill a whole window is padded with zero samples. The key is recorded but
//! not used: this variant is never encrypted.

use vstd::prelude::*;

use crate::decoder::AudioBlockDecoder;
use crate::decoder::padded_to;
use crate::info::StreamInfo;

verus! {

/// A little-endian 16-bit quantity at byte offset `i`.
pub open spec fn le16(b: Seq<u8>, i: int) -> int {
    b[i] as int + 0x100 * (b[i + 1] as int)
}

/// A little-endian 32-bit quantity at byte offset `i`.
pub open spec fn le32(b: Seq<u8>, i: int) -> int {
    b[i] as int + 0x100 * (b[i + 1] as int) + 0x10000 * (b[i + 2] as int) + 0x1000000 * (b[i
        + 3] as int)
}

/// The 4-byte signature that opens a raw-PCM stream.
pub open spec fn has_magic(b: Seq<u8>) -> bool {
    &&& b.len() >= 8
    &&& b[0] == 0x52u8
    &&& b[1] == 0x50u8
    &&& b[2] == 0x43u8
    &&& b[3] == 0x4du8
}

/// What the signature probe reports: the declared header length when the
/// signature matches and the length is representable, negative otherwise.
pub open spec fn raw_probe_result(p: Seq<u8>) -> int {
    if has_magic(p) && le32(p, 4) <= 0x7fff_ffff {
        le32(p, 4)
    } else {
        -1
    }
}

/// A syntactically valid raw-PCM header of declared length `hl`.
pub open spec fn raw_header_ok(b: Seq<u8>, hl: u32) -> bool {
    &&& hl >= 40
    &&& b.len() >= hl
    &&& has_magic(b)
    &&& le32(b, 4) == hl
}

/// The stream parameters a raw-PCM header declares.
pub open spec fn raw_header_info(b: Seq<u8>) -> StreamInfo {
    StreamInfo {
        channel_count: le16(b, 8) as u16,
        sampling_rate: le32(b, 12) as u32,
        samples_per_block: le32(b, 16) as u32,
        block_count: le32(b, 20) as u32,
        block_size: le32(b, 24) as u32,
        header_size: le32(b, 4) as u32,
        encoder_delay: le32(b, 28) as u32,
        encoder_padding: le32(b, 32) as u32,
    }
}

/// The sample at position `j` of a decoded block: the little-endian 16-bit
/// value at byte offset `2 * j`, or zero past the end of the block.
pub open spec fn block_value(block: Seq<u8>, j: int) -> i16 {
    if 2 * j + 1 < block.len() {
        (le16(block, 2 * j) as u16) as i16
    } else {
        0
    }
}

/// All `n` samples decoded from one block.
pub open spec fn block_samples(block: Seq<u8>, n: int) -> Seq<i16> {
    Seq::new(n as nat, |j: int| block_value(block, j))
}

/// Reads a little-endian 16-bit value.
fn read_le16(b: &[u8], i: usize) -> (r: u16)
    requires
        i + 2 <= b@.len(),
        b@.len() <= usize::MAX as int,
    ensures
        r as int == le16(b@, i as int),
{
    let lo = *vstd::slice::slice_index_get(b, i);
    let hi = *vstd::slice::slice_index_get(b, i + 1);
    lo as u16 + 0x100 * (hi as u16)
}

/// Reads a little-endian 32-bit value.
fn read_le32(b: &[u8], i: usize) -> (r: u32)
    requires
        i + 4 <= b@.len(),
        b@.len() <= usize::MAX as int,
    ensures
        r as int == le32(b@, i as int),
{
    let b0 = *vstd::slice::slice_index_get(b, i);
    let b1 = *vstd::slice::slice_index_get(b, i + 1);
    let b2 = *vstd::slice::slice_index_get(b, i + 2);
    let b3 = *vstd::slice::slice_index_get(b, i + 3);
    b0 as u32 + 0x100 * (b1 as u32) + 0x10000 * (b2 as u32) + 0x1000000 * (b3 as u32)
}

/// Per-stream state of the raw-PCM software decoder.
pub struct RawPcmDecoder {
    parsed: bool,
    info: StreamInfo,
    key: u64,
    window: Vec<i16>,
}

impl AudioBlockDecoder for RawPcmDecoder {
    open spec fn spec_probe(probe: Seq<u8>) -> int {
        raw_probe_result(probe)
    }

    open spec fn spec_header_ok(buffer: Seq<u8>, header_len: u32) -> bool {
        raw_header_ok(buffer, header_len)
    }

    open spec fn spec_info(buffer: Seq<u8>, header_len: u32) -> StreamInfo {
        raw_header_info(buffer)
    }

    open spec fn spec_block_status(info: StreamInfo, key: u64, block: Seq<u8>) -> i32 {
        if info.values_per_block() <= u32::MAX as int {
            0i32
        } else {
            -1i32
        }
    }

    open spec fn spec_block_samples(info: StreamInfo, key: u64, block: Seq<u8>) -> Seq<i16> {
        block_samples(block, info.values_per_block())
    }

    closed spec fn ready(self) -> bool {
        self.parsed
    }

    closed spec fn info(self) -> StreamInfo {
        self.info
    }

    closed spec fn key(self) -> u64 {
        self.key
    }

    closed spec fn window(self) -> Seq<i16> {
        self.window@
    }

    fn is_supported_format(probe: &[u8]) -> (r: i32) {
        if probe.len() < 8 {
            return -1;
        }
        let m0 = *vstd::slice::slice_index_get(probe, 0);
        let m1 = *vstd::slice::slice_index_get(probe, 1);
        let m2 = *vstd::slice::slice_index_get(probe, 2);
        let m3 = *vstd::slice::slice_index_get(probe, 3);
        if !(m0 == 0x52 && m1 == 0x50 && m2 == 0x43 && m3 == 0x4d) {
            return -1;
        }
        let hl = read_le32(probe, 4);
        if hl > 0x7fff_ffff {
            -1
        } else {
            hl as i32
        }
    }

    fn initialize() -> (r: Self) {
        RawPcmDecoder {
            parsed: false,
            info: StreamInfo {
                channel_count: 0,
                sampling_rate: 0,
                samples_per_block: 0,
                block_count: 0,
                block_size: 0,
                header_size: 0,
                encoder_delay: 0,
                encoder_padding: 0,
            },
            key: 0,
            window: Vec::new(),
        }
    }

    fn parse_header(&mut self, buffer: &[u8], header_len: u32) -> (r: i32) {
        if header_len < 40 || buffer.len() < header_len as usize {
            self.parsed = false;
            return -1;
        }
        let m0 = *vstd::slice::slice_index_get(buffer, 0);
        let m1 = *vstd::slice::slice_index_get(buffer, 1);
        let m2 = *vstd::slice::slice_index_get(buffer, 2);
        let m3 = *vstd::slice::slice_index_get(buffer, 3);
        if !(m0 == 0x52 && m1 == 0x50 && m2 == 0x43 && m3 == 0x4d) {
            self.parsed = false;
            return -1;
        }
        if read_le32(buffer, 4) != header_len {
            self.parsed = false;
            return -1;
        }
        self.info = StreamInfo {
            channel_count: read_le16(buffer, 8),
            sampling_rate: read_le32(buffer, 12),
            samples_per_block: read_le32(buffer, 16),
            block_count: read_le32(buffer, 20),
            block_size: read_le32(buffer, 24),
            header_size: header_len,
            encoder_delay: read_le32(buffer, 28),
            encoder_padding: read_le32(buffer, 32),
        };
        self.parsed = true;
        proof {
            assert(self.info == raw_header_info(buffer@));
        }
        0
    }

    fn set_key(&mut self, key: u64) {
        // Recorded for interface parity; raw-PCM streams are never encrypted.
        self.key = key;
    }

    fn get_info(&self) -> (r: Result<StreamInfo, i32>) {
        if self.parsed {
            Ok(self.info)
        } else {
            Err(-1)
        }
    }

    fn decode_block(&mut self, block: &[u8]) -> (r: i32) {
        if !self.parsed {
            return -1;
        }
        proof {
            assert((self.info.samples_per_block as int) * (self.info.channel_count as int)
                < 0x1_0000_0000_0000) by (nonlinear_arith)
                requires
                    self.info.samples_per_block <= u32::MAX,
                    self.info.channel_count <= u16::MAX,
            ;
        }
        let n64: u64 = (self.info.samples_per_block as u64) * (self.info.channel_count as u64);
        if n64 > u32::MAX as u64 {
            return -1;
        }
        let n: usize = n64 as usize;
        let blen = block.len();
        let mut window: Vec<i16> = Vec::new();
        let mut j: usize = 0;
        while j < n
            invariant
                j <= n,
                n <= u32::MAX,
                n == old(self).info().values_per_block(),
                blen == block@.len(),
                window@.len() == j,
                forall|k: int| 0 <= k < j ==> window@[k] == block_value(block@, k),
            decreases n - j,
        {
            let bi: u64 = 2 * (j as u64);
            let v: i16 = if bi + 1 < blen as u64 {
                #[verifier::truncate] (read_le16(block, bi as usize) as i16)
            } else {
                0
            };
            window.push(v);
            j += 1;
        }
        self.window = window;
        proof {
            assert(self.window@ =~= block_samples(block@, old(self).info().values_per_block()));
        }
        0
    }

    fn read_samples(&mut self, dest: &mut Vec<i16>) {
        let n = dest.len();
        let mut j: usize = 0;
        while j < n
            invariant
                j <= n,
                n == dest@.len(),
                forall|k: int| 0 <= k < j ==> dest@[k] == padded_to(self.window@, n as int)[k],
                *self == *old(self),
            decreases n - j,
        {
            let v: i16 = if j < self.window.len() {
                self.window[j]
            } else {
                0
            };
            dest[j] = v;
            j += 1;
        }
        proof {
            assert(dest@ =~= padded_to(self.window@, n as int));
        }
    }
}

} // verus!
