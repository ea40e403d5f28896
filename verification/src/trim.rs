//! The decode loop: per-block refills of the sample window, and
//! sample-accurate trimming of the encoder's lead delay and trail padding.
//!
//! Each iteration is in one of two modes. When the window holds no
//! unconsumed samples, the next block is sliced out of the input buffer,
//! decoded, and read into the window (refill). Otherwise samples are either
//! discarded while lead delay remains, or emitted to the container (drain).
//! The loop stops exactly when the emitted frame count reaches the declared
//! target; the trailing padding is never read because the target is computed
//! up front.

use vstd::prelude::*;

use crate::decoder::AudioBlockDecoder;
use crate::decoder::padded_to;
use crate::errors::HcaError;
use crate::info::StreamInfo;
use crate::muxer::ContainerMuxer;

verus! {

/// Mutable progress state of one decode call.
#[derive(Clone, Copy, Debug, PartialEq, Eq, Structural)]
pub struct DecodeCursor {
    /// Next block index to decode, 0-based, never past the block count.
    pub current_block: u32,
    /// Unconsumed samples currently in the window, at most one block's worth.
    pub samples_filled: u32,
    /// Frames of the current window already consumed; resets on refill.
    pub samples_consumed: u32,
    /// Lead-in frames still to drop; starts at the encoder delay and only
    /// decreases.
    pub samples_to_discard: u32,
    /// Frames emitted so far; only increases, up to the declared target.
    pub samples_done: u32,
}

/// One decoded block's interleaved samples, plus the history of everything
/// the decoder has produced for this stream so far.
pub struct SampleWindow {
    data: Vec<i16>,
    hist: Ghost<Seq<i16>>,
}

impl SampleWindow {
    /// The interleaved samples of the most recently decoded block.
    pub closed spec fn data_view(self) -> Seq<i16> {
        self.data@
    }

    /// Every interleaved value the decoder produced so far, oldest first.
    pub closed spec fn history(self) -> Seq<i16> {
        self.hist@
    }

    /// Allocates the window, sized for exactly one block, zero-filled.
    pub fn new(info: &StreamInfo) -> (w: SampleWindow)
        requires
            info.wf(),
        ensures
            w.data_view().len() == info.values_per_block(),
            w.history() == Seq::<i16>::empty(),
    {
        proof {
            assert((info.samples_per_block as int) * (info.channel_count as int)
                <= 2 * (info.samples_per_block as int) * (info.channel_count as int)
                && 2 * (info.samples_per_block as int) * (info.channel_count as int)
                    == 2 * ((info.samples_per_block as int) * (info.channel_count as int)))
                by (nonlinear_arith)
                requires
                    0 <= info.samples_per_block,
                    0 <= info.channel_count,
            ;
        }
        let n: u64 = (info.samples_per_block as u64) * (info.channel_count as u64);
        let mut data: Vec<i16> = Vec::new();
        let mut i: u64 = 0;
        while i < n
            invariant
                i <= n,
                data@.len() == i,
            decreases n - i,
        {
            data.push(0);
            i += 1;
        }
        SampleWindow { data, hist: Ghost(Seq::empty()) }
    }
}

/// Frames of the stream consumed so far (discarded or emitted): every frame
/// of the blocks before the current window, plus the consumed prefix of the
/// window itself.
pub open spec fn consumed_frames(c: DecodeCursor, info: StreamInfo) -> int {
    if c.current_block == 0 {
        0
    } else {
        (c.current_block as int - 1) * (info.samples_per_block as int) + c.samples_consumed as int
    }
}

/// What one decode call emits, as a function of everything the decoder
/// produced: the delay frames are dropped from the front, and exactly the
/// declared frame count is kept; whatever follows (the encoder padding) is
/// never read.
pub open spec fn emitted_of(hist: Seq<i16>, info: StreamInfo) -> Seq<i16> {
    let ch = info.channel_count as int;
    let lo = (info.encoder_delay as int) * ch;
    let hi = (info.encoder_delay as int + info.frames_to_do()) * ch;
    if 0 <= lo <= hi <= hist.len() {
        hist.subrange(lo, hi)
    } else {
        Seq::empty()
    }
}

/// The bytes of 0-based block `i` inside the input buffer.
pub open spec fn block_bytes_at(buffer: Seq<u8>, info: StreamInfo, i: int) -> Seq<u8> {
    buffer.subrange(
        info.header_size as int + i * (info.block_size as int),
        info.header_size as int + (i + 1) * (info.block_size as int),
    )
}

/// Whether 0-based block `i` lies fully inside the buffer.
pub open spec fn block_in_bounds(buffer: Seq<u8>, info: StreamInfo, i: int) -> bool {
    info.header_size as int + (i + 1) * (info.block_size as int) <= buffer.len()
}

/// The window contents block `i` produces: the decoder's samples for that
/// block, zero-padded or truncated to one block's value count.
pub open spec fn decoded_block_values<D: AudioBlockDecoder>(
    buffer: Seq<u8>,
    info: StreamInfo,
    key: u64,
    i: int,
) -> Seq<i16> {
    padded_to(
        D::spec_block_samples(info, key, block_bytes_at(buffer, info, i)),
        info.values_per_block(),
    )
}

/// Everything the decoder produces for blocks `0 .. n`, in order.
pub open spec fn decoded_history<D: AudioBlockDecoder>(
    buffer: Seq<u8>,
    info: StreamInfo,
    key: u64,
    n: int,
) -> Seq<i16>
    decreases n,
{
    if n <= 0 {
        Seq::empty()
    } else {
        decoded_history::<D>(buffer, info, key, n - 1) + decoded_block_values::<D>(
            buffer,
            info,
            key,
            n - 1,
        )
    }
}

/// Whether `n` is the number of blocks one decode call consumes: none when
/// nothing is to be emitted, else just enough whole blocks to cover the
/// lead delay and the declared target. At most one `n` satisfies this
/// (`lemma_blocks_needed_unique`).
pub open spec fn is_blocks_needed(info: StreamInfo, n: int) -> bool {
    if info.frames_to_do() <= 0 {
        n == 0
    } else {
        (n - 1) * (info.samples_per_block as int) < info.encoder_delay as int
            + info.frames_to_do() <= n * (info.samples_per_block as int)
    }
}

/// Law: the block count a decode call consumes is determined by the stream
/// parameters alone.
pub proof fn lemma_blocks_needed_unique(info: StreamInfo, n1: int, n2: int)
    requires
        is_blocks_needed(info, n1),
        is_blocks_needed(info, n2),
    ensures
        n1 == n2,
{
    if info.frames_to_do() > 0 {
        let spb = info.samples_per_block as int;
        let need = info.encoder_delay as int + info.frames_to_do();
        assert((n1 - 1) * spb < need <= n1 * spb && (n2 - 1) * spb < need <= n2 * spb && n1 != n2
            ==> false) by (nonlinear_arith);
    }
}

/// Whether every one of blocks `0 .. n` lies inside the buffer and decodes
/// with a non-negative status.
pub open spec fn all_blocks_good<D: AudioBlockDecoder>(
    buffer: Seq<u8>,
    info: StreamInfo,
    key: u64,
    n: int,
) -> bool
    decreases n,
{
    n <= 0 || (all_blocks_good::<D>(buffer, info, key, n - 1) && block_in_bounds(
        buffer,
        info,
        n - 1,
    ) && D::spec_block_status(info, key, block_bytes_at(buffer, info, n - 1)) >= 0)
}

/// When all of blocks `0 .. n` are good, so is each one of them.
pub proof fn lemma_all_blocks_good_at<D: AudioBlockDecoder>(
    buffer: Seq<u8>,
    info: StreamInfo,
    key: u64,
    i: int,
    n: int,
)
    requires
        all_blocks_good::<D>(buffer, info, key, n),
        0 <= i < n,
    ensures
        block_in_bounds(buffer, info, i),
        D::spec_block_status(info, key, block_bytes_at(buffer, info, i)) >= 0,
    decreases n,
{
    if i < n - 1 {
        lemma_all_blocks_good_at::<D>(buffer, info, key, i, n - 1);
    }
}

/// The loop invariant of one decode call, tying the cursor, the decoder's
/// output history, the current window, and the values written so far.
pub open spec fn decode_loop_inv(
    c: DecodeCursor,
    info: StreamInfo,
    todo: u32,
    window: SampleWindow,
    written: Seq<i16>,
) -> bool {
    let ch = info.channel_count as int;
    let spb = info.samples_per_block as int;
    let delay = info.encoder_delay as int;
    &&& info.wf()
    &&& todo == info.frames_to_do()
    &&& c.current_block <= info.block_count
    &&& window.data_view().len() == info.values_per_block()
    &&& window.history().len() == (c.current_block as int) * spb * ch
    &&& c.samples_to_discard <= delay
    &&& c.samples_done <= todo
    &&& (c.current_block == 0 ==> c.samples_filled == 0 && c.samples_consumed == 0)
    &&& (c.current_block > 0 ==> c.samples_consumed as int + c.samples_filled as int == spb)
    &&& (c.current_block > 0 ==> window.data_view()
        == window.history().subrange(
            (c.current_block as int - 1) * spb * ch,
            (c.current_block as int) * spb * ch,
        ))
    &&& (delay - c.samples_to_discard) + c.samples_done == consumed_frames(c, info)
    &&& (c.current_block > 0 ==> (c.current_block as int - 1) * spb < delay + todo)
    &&& (c.samples_to_discard > 0 ==> c.samples_done == 0)
    &&& (c.samples_to_discard == 0 ==> (delay + c.samples_done) * ch <= window.history().len()
        && written == window.history().subrange(delay * ch, (delay + c.samples_done as int) * ch))
    &&& (c.samples_to_discard > 0 ==> written == Seq::<i16>::empty())
}

/// One drain iteration: while lead delay remains, discards as many of the
/// window's unconsumed samples as the delay still asks for; otherwise emits
/// up to the remaining declared target, in strict arrival order. Discarding
/// always takes priority over emitting within one iteration. Progress and
/// bounds are exact: `samples_done`, `samples_consumed` never decrease,
/// `samples_to_discard` never increases, the block index is untouched, and
/// the unconsumed count strictly decreases.
pub fn drain_step(
    cursor: &mut DecodeCursor,
    window: &SampleWindow,
    info: &StreamInfo,
    todo: u32,
    muxer: &mut ContainerMuxer,
)
    requires
        decode_loop_inv(*old(cursor), *info, todo, *window, old(muxer).written()),
        old(cursor).samples_filled > 0,
        old(cursor).samples_done < todo,
        old(muxer).wf(),
        old(muxer).declared() == (todo as int) * (info.channel_count as int),
    ensures
        decode_loop_inv(*final(cursor), *info, todo, *window, final(muxer).written()),
        final(muxer).wf(),
        final(muxer).declared() == old(muxer).declared(),
        final(muxer).channels_spec() == old(muxer).channels_spec(),
        final(muxer).rate_spec() == old(muxer).rate_spec(),
        final(cursor).current_block == old(cursor).current_block,
        final(cursor).samples_done >= old(cursor).samples_done,
        final(cursor).samples_consumed >= old(cursor).samples_consumed,
        final(cursor).samples_to_discard <= old(cursor).samples_to_discard,
        final(cursor).samples_filled < old(cursor).samples_filled,
        old(cursor).samples_to_discard > 0 ==> ({
            let d = if old(cursor).samples_filled <= old(cursor).samples_to_discard {
                old(cursor).samples_filled as int
            } else {
                old(cursor).samples_to_discard as int
            };
            &&& final(cursor).samples_to_discard == old(cursor).samples_to_discard - d
            &&& final(cursor).samples_filled == old(cursor).samples_filled - d
            &&& final(cursor).samples_consumed == old(cursor).samples_consumed + d
            &&& final(cursor).samples_done == old(cursor).samples_done
            &&& final(muxer).written() == old(muxer).written()
        }),
        old(cursor).samples_to_discard == 0 ==> ({
            let e = if old(cursor).samples_filled as int <= todo - old(cursor).samples_done {
                old(cursor).samples_filled as int
            } else {
                todo - old(cursor).samples_done as int
            };
            &&& final(cursor).samples_to_discard == 0
            &&& final(cursor).samples_filled == old(cursor).samples_filled - e
            &&& final(cursor).samples_consumed == old(cursor).samples_consumed + e
            &&& final(cursor).samples_done == old(cursor).samples_done + e
            &&& final(muxer).written() == old(muxer).written() + window.data_view().subrange(
                (old(cursor).samples_consumed as int) * (info.channel_count as int),
                (old(cursor).samples_consumed as int + e) * (info.channel_count as int),
            )
        }),
{
    let ghost c0 = *cursor;
    let ghost spb = info.samples_per_block as int;
    let ghost ch = info.channel_count as int;
    let ghost delay = info.encoder_delay as int;
    let ghost hist = window.history();
    if cursor.samples_to_discard != 0 {
        // Pre-roll trim: these samples are never written to the container.
        let val = if cursor.samples_filled <= cursor.samples_to_discard {
            cursor.samples_filled
        } else {
            cursor.samples_to_discard
        };
        cursor.samples_to_discard = cursor.samples_to_discard - val;
        cursor.samples_consumed = cursor.samples_consumed + val;
        cursor.samples_filled = cursor.samples_filled - val;
        proof {
            if cursor.samples_to_discard == 0 {
                let cb = cursor.current_block as int;
                assert((cb - 1) * spb + spb == cb * spb) by (nonlinear_arith);
                assert(delay + cursor.samples_done == consumed_frames(*cursor, *info));
                assert(consumed_frames(*cursor, *info) <= (cursor.current_block as int) * spb);
                assert((delay + cursor.samples_done as int) * ch <= (cursor.current_block as int) * spb * ch)
                    by (nonlinear_arith)
                    requires
                        0 <= ch,
                        delay + cursor.samples_done as int <= (cursor.current_block as int) * spb,
                ;
                assert(muxer.written() =~= hist.subrange(delay * ch, (delay + cursor.samples_done as int) * ch));
            }
        }
    } else {
        // Emit: exactly up to the declared target, never past it.
        let samples_to_get = if cursor.samples_filled <= todo - cursor.samples_done {
            cursor.samples_filled
        } else {
            todo - cursor.samples_done
        };
        proof {
            assert((cursor.samples_consumed as int) * ch + (samples_to_get as int) * ch
                    == (cursor.samples_consumed as int + samples_to_get as int) * ch
                && (cursor.samples_consumed as int + samples_to_get as int) * ch <= spb * ch
                && (cursor.samples_consumed as int) * ch >= 0
                && (samples_to_get as int) * ch >= 0
                && spb * ch <= 2 * spb * ch
                && 2 * spb * ch == 2 * (spb * ch)) by (nonlinear_arith)
                requires
                    0 <= ch,
                    0 <= spb,
                    0 <= cursor.samples_consumed as int,
                    0 <= samples_to_get as int,
                    cursor.samples_consumed as int + samples_to_get as int <= spb,
            ;
            assert((cursor.samples_done as int) * ch + (samples_to_get as int) * ch
                    == (cursor.samples_done as int + samples_to_get as int) * ch
                && (cursor.samples_done as int + samples_to_get as int) * ch <= (todo as int) * ch
                && (delay + cursor.samples_done as int) * ch + (samples_to_get as int) * ch
                    == (delay + cursor.samples_done as int + samples_to_get as int) * ch)
                by (nonlinear_arith)
                requires
                    0 <= ch,
                    0 <= delay,
                    0 <= cursor.samples_done as int,
                    0 <= samples_to_get as int,
                    cursor.samples_done as int + samples_to_get as int <= todo as int,
            ;
            // The written prefix has exactly done * ch values.
            assert(muxer.written().len() == (cursor.samples_done as int) * ch) by {
                assert(muxer.written() == hist.subrange(delay * ch, (delay + cursor.samples_done as int) * ch));
                assert((delay + cursor.samples_done as int) * ch - delay * ch == (cursor.samples_done as int) * ch)
                    by (nonlinear_arith);
            }
        }
        let start = (cursor.samples_consumed as usize) * (info.channel_count as usize);
        let count = (samples_to_get as usize) * (info.channel_count as usize);
        let r = muxer.write_values(&window.data, start, count);
        proof {
            assert(r is Ok) by {
                assert((cursor.samples_done as int) * ch + count as int <= (todo as int) * ch);
            }
        }
        match r {
            Ok(()) => {}
            Err(_) => {
                proof {
                    assert(false);
                }
            }
        }
        cursor.samples_done = cursor.samples_done + samples_to_get;
        cursor.samples_consumed = cursor.samples_consumed + samples_to_get;
        cursor.samples_filled = cursor.samples_filled - samples_to_get;
        proof {
            let cb = cursor.current_block as int;
            assert((cb - 1) * spb + spb == cb * spb) by (nonlinear_arith);
            // The window is the last block of the history, so the values just
            // appended continue the emitted region of the history exactly.
            assert((cb - 1) * spb * ch + (c0.samples_consumed as int) * ch == (delay + c0.samples_done as int) * ch
                && (cb - 1) * spb * ch + (c0.samples_consumed as int + samples_to_get as int) * ch
                    == (delay + c0.samples_done as int + samples_to_get as int) * ch
                && (cb - 1) * spb * ch + spb * ch == cb * spb * ch) by (nonlinear_arith)
                requires
                    (cb - 1) * spb + c0.samples_consumed as int == delay + c0.samples_done as int,
                    c0.samples_consumed as int + samples_to_get as int <= spb,
                    0 <= ch,
                    0 <= samples_to_get as int,
            ;
            assert((delay + c0.samples_done as int + samples_to_get as int) * ch <= cb * spb * ch) by (nonlinear_arith)
                requires
                    delay + c0.samples_done as int + samples_to_get as int <= cb * spb,
                    0 <= ch,
            ;
            assert(window.data_view().subrange(
                (c0.samples_consumed as int) * ch,
                (c0.samples_consumed as int + samples_to_get as int) * ch,
            ) =~= hist.subrange(
                (delay + c0.samples_done as int) * ch,
                (delay + c0.samples_done as int + samples_to_get as int) * ch,
            ));
            assert((delay + c0.samples_done as int) * ch == delay * ch + (c0.samples_done as int) * ch
                && (delay + c0.samples_done as int + samples_to_get as int) * ch
                    == delay * ch + (c0.samples_done as int) * ch + (samples_to_get as int) * ch
                && (c0.samples_done as int + samples_to_get as int) * ch
                    == (c0.samples_done as int) * ch + (samples_to_get as int) * ch) by (nonlinear_arith);
            assert(muxer.written() =~= hist.subrange(delay * ch, (delay + cursor.samples_done as int) * ch));
        }
    }
}

/// One refill iteration: slices the next block out of the input buffer with
/// explicit bounds validation, decodes it, and reads the decoded samples
/// into the window, fully overwriting it. Fails with `UnexpectedEof`
/// exactly when no declared block remains or the buffer ends before the
/// block does (a truncated stream), and with `BlockDecodeError` — carrying
/// the 1-based block number and the decoder's exact status — when and only
/// when the decoder rejects the block. `written` is the value sequence
/// emitted so far, which a refill never changes.
pub fn refill_step<D: AudioBlockDecoder>(
    dec: &mut D,
    buffer: &[u8],
    info: &StreamInfo,
    todo: u32,
    cursor: &mut DecodeCursor,
    window: &mut SampleWindow,
    written: Ghost<Seq<i16>>,
) -> (r: Result<(), HcaError>)
    requires
        decode_loop_inv(*old(cursor), *info, todo, *old(window), written@),
        old(cursor).samples_filled == 0,
        old(cursor).samples_done < todo,
        old(dec).ready(),
        old(dec).info() == *info,
    ensures
        final(cursor).samples_done == old(cursor).samples_done,
        final(cursor).samples_to_discard == old(cursor).samples_to_discard,
        final(cursor).current_block >= old(cursor).current_block,
        final(dec).ready() && final(dec).info() == *info && final(dec).key() == old(dec).key(),
        r is Ok ==> ({
            &&& decode_loop_inv(*final(cursor), *info, todo, *final(window), written@)
            &&& final(cursor).current_block == old(cursor).current_block + 1
            &&& final(cursor).samples_filled == info.samples_per_block
            &&& final(cursor).samples_consumed == 0
            &&& final(window).data_view() == decoded_block_values::<D>(
                buffer@,
                *info,
                old(dec).key(),
                old(cursor).current_block as int,
            )
            &&& final(window).history() == old(window).history() + final(window).data_view()
        }),
        r is Err ==> *final(cursor) == *old(cursor) && *final(window) == *old(window),
        r == Err::<(), HcaError>(HcaError::UnexpectedEof) <==> (
            old(cursor).current_block >= info.block_count
            || !block_in_bounds(buffer@, *info, old(cursor).current_block as int)
        ),
        old(cursor).current_block < info.block_count && block_in_bounds(
            buffer@,
            *info,
            old(cursor).current_block as int,
        ) ==> (r is Ok <==> D::spec_block_status(
            *info,
            old(dec).key(),
            block_bytes_at(buffer@, *info, old(cursor).current_block as int),
        ) >= 0),
        r matches Err(HcaError::BlockDecodeError(idx, st)) ==> idx == old(cursor).current_block + 1
            && st == D::spec_block_status(
            *info,
            old(dec).key(),
            block_bytes_at(buffer@, *info, old(cursor).current_block as int),
        ) && st < 0,
        r is Err ==> (r == Err::<(), HcaError>(HcaError::UnexpectedEof)
            || r matches Err(HcaError::BlockDecodeError(_, _))),
{
    let ghost spb = info.samples_per_block as int;
    let ghost ch = info.channel_count as int;
    let ghost cb0 = cursor.current_block as int;
    if cursor.current_block >= info.block_count {
        // The declared sample count cannot be reached from the available
        // blocks: the stream is truncated or corrupt.
        return Err(HcaError::UnexpectedEof);
    }
    proof {
        assert((cb0 + 1) * (info.block_size as int) == cb0 * (info.block_size as int) + info.block_size as int
            && 0 <= cb0 * (info.block_size as int) <= 0xffff_fffe_0000_0001) by (nonlinear_arith)
            requires
                0 <= cb0 <= 0xffff_fffe,
                0 <= info.block_size <= 0xffff_ffff,
        ;
    }
    let start64: u64 = (info.header_size as u64) + (cursor.current_block as u64) * (info.block_size as u64);
    let end64: u64 = start64 + (info.block_size as u64);
    if end64 > buffer.len() as u64 {
        return Err(HcaError::UnexpectedEof);
    }
    let block = vstd::slice::slice_subrange(buffer, start64 as usize, end64 as usize);
    proof {
        assert(block@ =~= block_bytes_at(buffer@, *info, cb0));
    }
    let status = dec.decode_block(block);
    if status < 0 {
        // Non-retriable: block state is unrecoverable once corrupted.
        return Err(HcaError::BlockDecodeError(cursor.current_block + 1, status));
    }
    dec.read_samples(&mut window.data);
    proof {
        window.hist@ = window.hist@ + window.data@;
        assert(window.data@ == decoded_block_values::<D>(buffer@, *info, old(dec).key(), cb0));
    }
    cursor.current_block = cursor.current_block + 1;
    cursor.samples_consumed = 0;
    cursor.samples_filled = info.samples_per_block;
    proof {
        let cb = cursor.current_block as int;
        assert(cb * spb * ch == (cb - 1) * spb * ch + spb * ch
            && (cb - 1) * spb + spb == cb * spb
            && spb * ch == info.values_per_block()) by (nonlinear_arith)
            requires
                spb == info.samples_per_block as int,
                ch == info.channel_count as int,
                info.values_per_block() == spb * ch,
        ;
        assert(window.data_view() =~= window.history().subrange((cb - 1) * spb * ch, cb * spb * ch));
        assert((cb0 - 1) * spb + spb == cb0 * spb && 0 * spb == 0) by (nonlinear_arith);
        let delay = info.encoder_delay as int;
        if cursor.samples_to_discard == 0 {
            assert(delay + cursor.samples_done as int <= (cb - 1) * spb);
            assert((delay + cursor.samples_done as int) * ch <= (cb - 1) * spb * ch
                && 0 <= delay * ch <= (delay + cursor.samples_done as int) * ch) by (nonlinear_arith)
                requires
                    delay + cursor.samples_done as int <= (cb - 1) * spb,
                    0 <= ch,
                    0 <= delay,
                    0 <= cursor.samples_done as int,
            ;
            assert(written@ =~= window.history().subrange(delay * ch, (delay + cursor.samples_done as int) * ch));
        }
    }
    Ok(())
}

/// Drives the decode loop until the emitted frame count reaches the
/// declared target — the sole exit condition. Succeeds exactly when every
/// block needed to cover the lead delay and the target lies inside the
/// buffer and decodes with a non-negative status; then the muxer holds
/// exactly the declared values: of everything the decoder produced (the
/// returned history, a function of the buffer, the stream parameters and
/// the key alone), the lead delay is dropped from the front and exactly
/// `todo` frames are kept, so the trailing encoder padding is never read.
/// `UnexpectedEof` is returned only when the buffer ends before its
/// declared blocks do; a block failure carries the 1-based block number
/// and the decoder's exact negative status.
pub fn run_decode_loop<D: AudioBlockDecoder>(
    dec: &mut D,
    buffer: &[u8],
    info: &StreamInfo,
    todo: u32,
    muxer: &mut ContainerMuxer,
) -> (r: Result<Ghost<Seq<i16>>, HcaError>)
    requires
        info.wf(),
        todo == info.frames_to_do(),
        old(muxer).wf(),
        old(muxer).written().len() == 0,
        old(muxer).declared() == (todo as int) * (info.channel_count as int),
        old(dec).ready(),
        old(dec).info() == *info,
    ensures
        final(muxer).wf(),
        final(muxer).declared() == old(muxer).declared(),
        final(muxer).channels_spec() == old(muxer).channels_spec(),
        final(muxer).rate_spec() == old(muxer).rate_spec(),
        final(dec).ready() && final(dec).info() == *info && final(dec).key() == old(dec).key(),
        r is Ok <==> exists|n: int|
            #[trigger] is_blocks_needed(*info, n) && all_blocks_good::<D>(
                buffer@,
                *info,
                old(dec).key(),
                n,
            ),
        r matches Ok(hist) ==> ({
            &&& exists|n: int|
                #[trigger] is_blocks_needed(*info, n) && hist@ == decoded_history::<D>(
                    buffer@,
                    *info,
                    old(dec).key(),
                    n,
                )
            &&& final(muxer).written() == emitted_of(hist@, *info)
            &&& final(muxer).written().len() == (todo as int) * (info.channel_count as int)
            &&& hist@.len() <= info.total_frames() * (info.channel_count as int)
        }),
        r == Err::<Ghost<Seq<i16>>, HcaError>(HcaError::UnexpectedEof) ==> (info.header_size as int)
            + (info.block_count as int) * (info.block_size as int) > buffer@.len(),
        r matches Err(HcaError::BlockDecodeError(idx, st)) ==> 1 <= idx
            && st == D::spec_block_status(
            *info,
            old(dec).key(),
            block_bytes_at(buffer@, *info, idx as int - 1),
        ) && st < 0,
        r is Err ==> (r == Err::<Ghost<Seq<i16>>, HcaError>(HcaError::UnexpectedEof)
            || r matches Err(HcaError::BlockDecodeError(_, _))),
{
    let mut cursor = DecodeCursor {
        current_block: 0,
        samples_filled: 0,
        samples_consumed: 0,
        samples_to_discard: info.encoder_delay,
        samples_done: 0,
    };
    let mut window = SampleWindow::new(info);
    let ghost ch = info.channel_count as int;
    let ghost delay = info.encoder_delay as int;
    proof {
        assert(0 * (info.samples_per_block as int) * ch == 0) by (nonlinear_arith);
        assert(muxer.written() =~= Seq::<i16>::empty());
        if info.encoder_delay == 0 {
            assert(muxer.written() =~= window.history().subrange(0, 0));
        }
    }
    let ghost key0 = dec.key();
    while cursor.samples_done < todo
        invariant
            decode_loop_inv(cursor, *info, todo, window, muxer.written()),
            muxer.wf(),
            muxer.declared() == (todo as int) * ch,
            muxer.declared() == old(muxer).declared(),
            muxer.channels_spec() == old(muxer).channels_spec(),
            muxer.rate_spec() == old(muxer).rate_spec(),
            ch == info.channel_count as int,
            delay == info.encoder_delay as int,
            dec.ready(),
            dec.info() == *info,
            dec.key() == key0,
            key0 == old(dec).key(),
            window.history() == decoded_history::<D>(buffer@, *info, key0, cursor.current_block as int),
            all_blocks_good::<D>(buffer@, *info, key0, cursor.current_block as int),
            todo == 0 ==> cursor.current_block == 0,
        decreases
            todo - cursor.samples_done,
            info.block_count - cursor.current_block,
            cursor.samples_filled,
    {
        if cursor.samples_filled != 0 {
            drain_step(&mut cursor, &window, info, todo, muxer);
        } else {
            let ghost cb0 = cursor.current_block as int;
            let step = refill_step(dec, buffer, info, todo, &mut cursor, &mut window, Ghost(muxer.written()));
            match step {
                Ok(()) => {
                    proof {
                        assert(all_blocks_good::<D>(buffer@, *info, key0, cb0));
                        assert(cb0 < info.block_count as int);
                        assert(block_in_bounds(buffer@, *info, cb0));
                        assert(D::spec_block_status(
                            *info,
                            key0,
                            block_bytes_at(buffer@, *info, cb0),
                        ) >= 0);
                        assert(window.history() == decoded_history::<D>(buffer@, *info, key0, cb0 + 1));
                        assert(all_blocks_good::<D>(buffer@, *info, key0, cb0 + 1));
                    }
                }
                Err(e) => {
                    proof {
                        let spb = info.samples_per_block as int;
                        assert((cb0 - 1) * spb + spb == cb0 * spb && 0 * spb == 0) by (nonlinear_arith);
                        assert(consumed_frames(cursor, *info) == cb0 * spb);
                        // A refill is reached only short of the target, so not
                        // every declared block can already be consumed.
                        assert(cb0 < info.block_count) by {
                            if cb0 >= info.block_count {
                                assert(cb0 * spb == info.total_frames());
                            }
                        }
                        // The failing block is one the target still needs.
                        assert(todo > 0);
                        assert(spb >= 1) by (nonlinear_arith)
                            requires
                                1 <= info.frames_to_do() + info.encoder_delay as int + info.encoder_padding as int,
                                info.frames_to_do() + info.encoder_delay as int + info.encoder_padding as int
                                    == (info.block_count as int) * spb,
                                0 <= spb,
                        ;
                        assert(cb0 * spb < delay + todo);
                        assert forall|n: int| is_blocks_needed(*info, n) implies !all_blocks_good::<
                            D,
                        >(buffer@, *info, key0, n) by {
                            assert(cb0 < n) by (nonlinear_arith)
                                requires
                                    cb0 * spb < delay + todo,
                                    delay + todo <= n * spb,
                                    1 <= spb,
                            ;
                            if all_blocks_good::<D>(buffer@, *info, key0, n) {
                                lemma_all_blocks_good_at::<D>(buffer@, *info, key0, cb0, n);
                                assert(false);
                            }
                        }
                        if e == HcaError::UnexpectedEof {
                            assert((cb0 + 1) * (info.block_size as int) <= (info.block_count as int)
                                * (info.block_size as int)) by (nonlinear_arith)
                                requires
                                    cb0 + 1 <= info.block_count as int,
                                    0 <= info.block_size as int,
                            ;
                        }
                    }
                    return Err(e);
                }
            }
        }
    }
    proof {
        let cbi = cursor.current_block as int;
        let spb = info.samples_per_block as int;
        assert((cbi - 1) * spb + spb == cbi * spb && 0 * spb == 0) by (nonlinear_arith);
        if todo > 0 {
            assert(cbi > 0);
            assert(is_blocks_needed(*info, cbi));
        } else {
            assert(cbi == 0);
            assert(is_blocks_needed(*info, 0));
        }
        assert(all_blocks_good::<D>(buffer@, *info, key0, cbi));
        assert(window.history() == decoded_history::<D>(buffer@, *info, key0, cbi));
    }
    proof {
        if todo > 0 {
            assert(cursor.samples_to_discard == 0);
            assert(0 <= delay * ch && delay * ch <= (delay + todo as int) * ch) by (nonlinear_arith)
                requires
                    0 <= delay,
                    0 <= todo as int,
                    0 <= ch,
            ;
            assert(muxer.written() =~= emitted_of(window.history(), *info));
            assert((delay + todo) * ch - delay * ch == (todo as int) * ch) by (nonlinear_arith);
        } else {
            assert(muxer.written() =~= Seq::<i16>::empty());
            assert((todo as int) * ch == 0) by (nonlinear_arith)
                requires
                    todo == 0,
            ;
            if 0 <= delay * ch && delay * ch <= window.history().len() {
                assert(window.history().subrange(delay * ch, delay * ch) =~= muxer.written());
            }
            assert(muxer.written() =~= emitted_of(window.history(), *info));
        }
        assert(window.history().len() <= info.total_frames() * ch) by (nonlinear_arith)
            requires
                window.history().len() == (cursor.current_block as int) * (info.samples_per_block as int) * ch,
                cursor.current_block <= info.block_count,
                0 <= info.samples_per_block as int,
                0 <= ch,
                info.total_frames() == (info.block_count as int) * (info.samples_per_block as int),
        ;
    }
    Ok(Ghost(window.history()))
}

/// Law: at every point of one decode call, the progress counters stay
/// within their bounds: frames emitted never exceed the declared target,
/// the block index never exceeds the block count, and the consumed offset
/// never exceeds one block's frame count.
pub proof fn lemma_cursor_bounds(
    c: DecodeCursor,
    info: StreamInfo,
    todo: u32,
    window: SampleWindow,
    written: Seq<i16>,
)
    requires
        decode_loop_inv(c, info, todo, window, written),
    ensures
        c.samples_done <= todo,
        c.current_block <= info.block_count,
        c.samples_consumed <= info.samples_per_block,
        c.samples_to_discard <= info.encoder_delay,
{
}

/// Law: the emitted value count is exactly the declared frame count times
/// the channel count — the container never receives more or fewer values.
pub proof fn lemma_emitted_length(hist: Seq<i16>, info: StreamInfo)
    requires
        info.wf(),
        hist.len() >= (info.encoder_delay as int + info.frames_to_do()) * (info.channel_count as int),
    ensures
        emitted_of(hist, info).len() == info.frames_to_do() * (info.channel_count as int),
{
    let ch = info.channel_count as int;
    let delay = info.encoder_delay as int;
    let todo = info.frames_to_do();
    assert(0 <= delay * ch && delay * ch <= (delay + todo) * ch
        && (delay + todo) * ch - delay * ch == todo * ch) by (nonlinear_arith)
        requires
            0 <= delay,
            0 <= todo,
            0 <= ch,
    ;
}

/// Law: with no encoder delay and no encoder padding, every decoded sample
/// of every block is emitted — the trimmed output is the whole history, and
/// the target is reached exactly at the last block's last sample.
pub proof fn lemma_no_trim_emits_all(hist: Seq<i16>, info: StreamInfo)
    requires
        info.wf(),
        info.encoder_delay == 0,
        info.encoder_padding == 0,
        hist.len() == info.total_frames() * (info.channel_count as int),
    ensures
        emitted_of(hist, info) == hist,
{
    assert(emitted_of(hist, info) =~= hist);
}

/// Law: when the encoder delay spans at least one whole block, the first
/// emitted value comes from a block after block 0: its position in the
/// decoded history lies at or beyond one whole block of values.
pub proof fn lemma_delay_spans_blocks(hist: Seq<i16>, info: StreamInfo)
    requires
        info.wf(),
        info.encoder_delay >= info.samples_per_block,
        info.frames_to_do() >= 1,
        hist.len() >= (info.encoder_delay as int + info.frames_to_do()) * (info.channel_count as int),
    ensures
        emitted_of(hist, info).len() >= 1,
        emitted_of(hist, info)[0] == hist[(info.encoder_delay as int) * (info.channel_count as int)],
        (info.encoder_delay as int) * (info.channel_count as int) >= info.values_per_block(),
{
    let ch = info.channel_count as int;
    let delay = info.encoder_delay as int;
    let todo = info.frames_to_do();
    assert(0 <= delay * ch && delay * ch + ch <= (delay + todo) * ch
        && delay * ch >= (info.samples_per_block as int) * ch) by (nonlinear_arith)
        requires
            0 <= delay,
            1 <= todo,
            1 <= ch,
            delay >= info.samples_per_block as int,
            0 <= info.samples_per_block as int,
    ;
}

} // verus!
