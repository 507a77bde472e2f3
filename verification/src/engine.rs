//! bzip2 stream framing and the interpretation of what the bzip2 library reports.
//!
//! The calls into `libbz2_rs_sys` are `unsafe extern "C"` functions, so they are made by the
//! caller; this module decides where each stream starts, what a reported outcome means and
//! how the read and write positions advance.

use vstd::prelude::*;

use crate::text::{push_signed_decimal, spec_signed_decimal};

verus! {

/// Reads `libbz2_rs_sys::BZ_OK`, the code of a call that succeeded; the crate defines it
/// as `ReturnCode::BZ_OK`, which is 0.
#[verifier::external_body]
fn bz_ok() -> (code: i32)
    ensures
        code == code_ok(),
{
    libbz2_rs_sys::BZ_OK
}

/// Reads `libbz2_rs_sys::BZ_STREAM_END`, the code of a decompression call that reached the
/// end of its stream; the crate defines it as `ReturnCode::BZ_STREAM_END`, which is 4.
#[verifier::external_body]
fn bz_stream_end() -> (code: i32)
    ensures
        code == code_stream_end(),
{
    libbz2_rs_sys::BZ_STREAM_END
}

/// Un-timed passes run before each timed measurement.
pub const WARMUP_ITERATIONS: usize = 5;

/// Return code of a successful library call.
pub open spec fn code_ok() -> i32 {
    0
}

/// Return code of a decompression call that reached the end of its stream.
pub open spec fn code_stream_end() -> i32 {
    4
}

/// Failures of the bzip2 routines, with the code that the library returned.
#[derive(Debug, Clone, Copy, PartialEq, Eq, Structural)]
pub enum BzError {
    /// `BZ2_bzDecompressInit` did not return `BZ_OK`.
    InitFailed(i32),
    /// A single-stream decompression did not reach the end of its stream.
    DecompressFailed(i32),
    /// A stream of a multistream archive ended with an error code.
    StreamFailed(i32),
    /// `BZ2_bzBuffToBuffCompress` did not return `BZ_OK`.
    CompressFailed(i32),
}

impl BzError {
    /// The error text that the harness reports for this failure.
    pub open spec fn spec_message(self) -> Seq<char> {
        match self {
            BzError::InitFailed(c) => "BZ2_bzDecompressInit failed code "@ + spec_signed_decimal(c as int),
            BzError::DecompressFailed(c) => "BZ2_bzDecompress error "@ + spec_signed_decimal(c as int),
            BzError::StreamFailed(c) => "BZ2_bzDecompress returned error code "@ + spec_signed_decimal(c as int),
            BzError::CompressFailed(c) => "BZ2_bzBuffToBuffCompress failed: "@ + spec_signed_decimal(c as int),
        }
    }

    /// Renders the error text.
    pub fn message(&self) -> (m: String)
        ensures
            m@ == self.spec_message(),
    {
        let (mut m, code) = match self {
            BzError::InitFailed(c) => (String::from_str("BZ2_bzDecompressInit failed code "), *c),
            BzError::DecompressFailed(c) => (String::from_str("BZ2_bzDecompress error "), *c),
            BzError::StreamFailed(c) => (String::from_str("BZ2_bzDecompress returned error code "), *c),
            BzError::CompressFailed(c) => (String::from_str("BZ2_bzBuffToBuffCompress failed: "), *c),
        };
        push_signed_decimal(&mut m, code as i64);
        m
    }
}

/// What the caller reports after running one stream through the library.
#[derive(Debug, Clone, Copy, PartialEq, Eq, Structural)]
pub enum StreamOutcome {
    /// `BZ2_bzDecompressInit` returned this code and nothing was decompressed.
    InitFailed(i32),
    /// `BZ2_bzDecompress` returned `ret`, having read `consumed` bytes and written `produced`.
    Ran { ret: i32, consumed: usize, produced: usize },
}

/// The three bytes that open every bzip2 stream: `BZh`.
pub open spec fn magic_at(s: Seq<u8>, p: int) -> bool {
    &&& 0 <= p
    &&& p + 3 <= s.len()
    &&& s[p] == 0x42u8
    &&& s[p + 1] == 0x5au8
    &&& s[p + 2] == 0x68u8
}

/// The four bytes at `p` read as a big-endian unsigned number.
pub open spec fn be_u32_at(s: Seq<u8>, p: int) -> int {
    s[p] * 0x100_0000 + s[p + 1] * 0x1_0000 + s[p + 2] * 0x100 + s[p + 3]
}

/// The four bytes at `p` read as a big-endian two's-complement `i32`.
pub open spec fn be_i32_at(s: Seq<u8>, p: int) -> int {
    let u = be_u32_at(s, p);
    if u >= 0x8000_0000 {
        u - 0x1_0000_0000
    } else {
        u
    }
}

/// Reads a big-endian `i32` at `pos`.
pub fn read_be_i32(input: &[u8], pos: usize) -> (v: i32)
    requires
        pos + 4 <= input@.len(),
    ensures
        v == be_i32_at(input@, pos as int),
{
    let b0 = input[pos] as i64;
    let b1 = input[pos + 1] as i64;
    let b2 = input[pos + 2] as i64;
    let b3 = input[pos + 3] as i64;
    let u: i64 = b0 * 0x100_0000 + b1 * 0x1_0000 + b2 * 0x100 + b3;
    if u >= 0x8000_0000 {
        (u - 0x1_0000_0000) as i32
    } else {
        u as i32
    }
}

/// Whether `BZh` stands at `pos`.
pub fn has_magic_at(input: &[u8], pos: usize) -> (b: bool)
    requires
        pos <= input@.len(),
    ensures
        b == magic_at(input@, pos as int),
{
    if input.len() - pos < 3 {
        false
    } else {
        input[pos] == 0x42u8 && input[pos + 1] == 0x5au8 && input[pos + 2] == 0x68u8
    }
}

/// The decision taken before each stream of a (possibly multistream) archive.
#[derive(Debug, Clone, Copy, PartialEq, Eq, Structural)]
pub enum FrameStep {
    /// Nothing more to decompress.
    Finish,
    /// Decompress the stream whose magic stands at `start`.
    Decode { start: usize },
}

/// Where the next stream starts. Every stream after the first is preceded by a four-byte
/// big-endian length header; a negative header marks the end of the volume. A stream must
/// open with `BZh`; anything else ends the archive.
pub open spec fn spec_frame_step(s: Seq<u8>, pos: int, first: bool) -> FrameStep {
    if pos >= s.len() {
        FrameStep::Finish
    } else if !first {
        if pos + 4 > s.len() {
            FrameStep::Finish
        } else if be_i32_at(s, pos) < 0 {
            FrameStep::Finish
        } else if magic_at(s, pos + 4) {
            FrameStep::Decode { start: (pos + 4) as usize }
        } else {
            FrameStep::Finish
        }
    } else if magic_at(s, pos) {
        FrameStep::Decode { start: pos as usize }
    } else {
        FrameStep::Finish
    }
}

/// Decides what to do at read position `pos`; `first` tells whether no stream was read yet.
pub fn frame_step(input: &[u8], pos: usize, first: bool) -> (d: FrameStep)
    requires
        pos <= input@.len(),
    ensures
        d == spec_frame_step(input@, pos as int, first),
{
    if pos >= input.len() {
        return FrameStep::Finish;
    }
    let mut start = pos;
    if !first {
        if input.len() - pos < 4 {
            return FrameStep::Finish;
        }
        let header = read_be_i32(input, pos);
        if header < 0 {
            return FrameStep::Finish;
        }
        start = pos + 4;
    }
    if has_magic_at(input, start) {
        FrameStep::Decode { start }
    } else {
        FrameStep::Finish
    }
}

/// Read and write positions of a multistream decompression.
#[derive(Debug, Clone, Copy, PartialEq, Eq, Structural)]
pub struct MultistreamState {
    /// Next byte of the archive to look at.
    pub in_pos: usize,
    /// Bytes written so far to the destination.
    pub out_pos: usize,
    /// No stream has been decompressed yet.
    pub first: bool,
}

impl MultistreamState {
    /// The state before the first stream.
    pub fn start() -> (st: MultistreamState)
        ensures
            st == (MultistreamState { in_pos: 0, out_pos: 0, first: true }),
    {
        MultistreamState { in_pos: 0, out_pos: 0, first: true }
    }

    /// Positions within an input of `input_len` bytes and an output of `out_len` bytes.
    pub open spec fn within(self, input_len: int, out_len: int) -> bool {
        self.in_pos <= input_len && self.out_pos <= out_len
    }

    /// A quantity that every completed stream makes smaller.
    pub open spec fn measure(self, input_len: int) -> int {
        2 * (input_len - self.in_pos) + (if self.first { 1int } else { 0int })
    }
}

/// What the library reported is possible for a stream started at `start`: it reads no
/// more than what follows `start` and writes no more than the room left after `out_pos`.
pub open spec fn outcome_fits(outcome: StreamOutcome, start: int, input_len: int, out_pos: int, out_len: int) -> bool {
    match outcome {
        StreamOutcome::InitFailed(_) => true,
        StreamOutcome::Ran { ret, consumed, produced } =>
            consumed <= input_len - start && produced <= out_len - out_pos,
    }
}

/// The state after a stream of a multistream archive, or the error that ends the archive.
/// A stream that stopped with `BZ_OK` (destination full) is not an error: framing goes on.
pub open spec fn spec_after_stream(st: MultistreamState, start: usize, outcome: StreamOutcome) -> Result<MultistreamState, BzError> {
    match outcome {
        StreamOutcome::InitFailed(code) => Err(BzError::InitFailed(code)),
        StreamOutcome::Ran { ret, consumed, produced } =>
            if ret != code_stream_end() && ret != code_ok() {
                Err(BzError::StreamFailed(ret))
            } else {
                Ok(MultistreamState {
                    in_pos: (start + consumed) as usize,
                    out_pos: (st.out_pos + produced) as usize,
                    first: false,
                })
            },
    }
}

/// Advances the positions past a stream that started at `start`.
pub fn after_stream(st: MultistreamState, start: usize, outcome: StreamOutcome, input_len: usize, out_len: usize) -> (r: Result<MultistreamState, BzError>)
    requires
        st.in_pos <= start <= input_len,
        st.out_pos <= out_len,
        outcome_fits(outcome, start as int, input_len as int, st.out_pos as int, out_len as int),
    ensures
        r == spec_after_stream(st, start, outcome),
        r matches Ok(next) ==> next.within(input_len as int, out_len as int),
{
    match outcome {
        StreamOutcome::InitFailed(code) => Err(BzError::InitFailed(code)),
        StreamOutcome::Ran { ret, consumed, produced } => {
            if ret != bz_stream_end() && ret != bz_ok() {
                Err(BzError::StreamFailed(ret))
            } else {
                Ok(MultistreamState { in_pos: start + consumed, out_pos: st.out_pos + produced, first: false })
            }
        },
    }
}

/// Each stream that completes brings a multistream decompression closer to its end: the
/// read position never moves back, the output grows by what the stream wrote, and the
/// measure falls, so the framing loop ends on every input.
pub proof fn lemma_stream_progress(s: Seq<u8>, st: MultistreamState, outcome: StreamOutcome, out_len: int)
    requires
        s.len() <= usize::MAX,
        out_len <= usize::MAX,
        st.within(s.len() as int, out_len),
        spec_frame_step(s, st.in_pos as int, st.first) is Decode,
        outcome_fits(outcome, spec_frame_step(s, st.in_pos as int, st.first)->start as int, s.len() as int, st.out_pos as int, out_len),
        spec_after_stream(st, spec_frame_step(s, st.in_pos as int, st.first)->start, outcome) is Ok,
    ensures
        ({
            let next = spec_after_stream(st, spec_frame_step(s, st.in_pos as int, st.first)->start, outcome)->Ok_0;
            &&& next.within(s.len() as int, out_len)
            &&& st.in_pos <= next.in_pos
            &&& next.out_pos == st.out_pos + (outcome->produced)
            &&& 0 <= next.measure(s.len() as int) < st.measure(s.len() as int)
        }),
{
}

/// A stream that the framing decodes starts with `BZh`, and one after the first is preceded
/// by a non-negative big-endian header.
pub proof fn lemma_decoded_streams_are_framed(s: Seq<u8>, pos: int, first: bool)
    requires
        0 <= pos,
        s.len() <= usize::MAX,
        spec_frame_step(s, pos, first) is Decode,
    ensures
        magic_at(s, spec_frame_step(s, pos, first)->start as int),
        first ==> spec_frame_step(s, pos, first)->start == pos,
        !first ==> spec_frame_step(s, pos, first)->start == pos + 4 && be_i32_at(s, pos) >= 0,
{
}

/// The result of decompressing a single stream into a destination of `out_len` bytes:
/// the number of bytes written when the library reached the end of the stream.
pub open spec fn spec_single_stream_result(outcome: StreamOutcome) -> Result<usize, BzError> {
    match outcome {
        StreamOutcome::InitFailed(code) => Err(BzError::InitFailed(code)),
        StreamOutcome::Ran { ret, consumed, produced } =>
            if ret == code_stream_end() {
                Ok(produced)
            } else {
                Err(BzError::DecompressFailed(ret))
            },
    }
}

/// Interprets the outcome of decompressing one stream in a single call.
pub fn single_stream_result(outcome: StreamOutcome) -> (r: Result<usize, BzError>)
    ensures
        r == spec_single_stream_result(outcome),
{
    match outcome {
        StreamOutcome::InitFailed(code) => Err(BzError::InitFailed(code)),
        StreamOutcome::Ran { ret, consumed, produced } => {
            if ret == bz_stream_end() {
                Ok(produced)
            } else {
                Err(BzError::DecompressFailed(ret))
            }
        },
    }
}

/// Interprets what `BZ2_bzBuffToBuffCompress` returned: the code and the length it wrote
/// back into its destination-length argument.
pub fn compress_result(ret: i32, dest_len: u32) -> (r: Result<usize, BzError>)
    ensures
        ret == code_ok() ==> r == Ok::<usize, BzError>(dest_len as usize),
        ret != code_ok() ==> r == Err::<usize, BzError>(BzError::CompressFailed(ret)),
{
    if ret != bz_ok() {
        Err(BzError::CompressFailed(ret))
    } else {
        Ok(dest_len as usize)
    }
}

/// The decision after one bounded-buffer call of `BZ2_bzDecompress` when a stream is
/// decompressed chunk by chunk.
#[derive(Debug, Clone, Copy, PartialEq, Eq, Structural)]
pub enum ChunkStep {
    /// The stream has more data: call again.
    Continue,
    /// The stream ended.
    StreamDone,
    /// The library reported this error code.
    Failed(i32),
}

/// What a chunked decompression does after a call that returned `ret`.
pub open spec fn spec_chunk_step(ret: i32) -> ChunkStep {
    if ret == code_stream_end() {
        ChunkStep::StreamDone
    } else if ret != code_ok() {
        ChunkStep::Failed(ret)
    } else {
        ChunkStep::Continue
    }
}

/// What a chunked decompression does after a call that returned `ret`.
pub fn chunk_step(ret: i32) -> (c: ChunkStep)
    ensures
        c == spec_chunk_step(ret),
{
    if ret == bz_stream_end() {
        ChunkStep::StreamDone
    } else if ret != bz_ok() {
        ChunkStep::Failed(ret)
    } else {
        ChunkStep::Continue
    }
}

/// The read position after a chunk call that read `consumed` bytes from `in_pos`, and what
/// to do next.
pub fn after_chunk(in_pos: usize, consumed: usize, input_len: usize, ret: i32) -> (r: (usize, ChunkStep))
    requires
        in_pos <= input_len,
        consumed <= input_len - in_pos,
    ensures
        r.0 == in_pos + consumed,
        r.0 <= input_len,
        r.1 == spec_chunk_step(ret),
{
    (in_pos + consumed, chunk_step(ret))
}

/// Before any stream after the first, with room for a header and the magic, the framing
/// decodes the next stream (right after the header) exactly when the big-endian header is
/// non-negative (its top bit is clear) and `BZh` follows it; it finishes otherwise.
pub proof fn lemma_later_stream_decoded_iff_header_and_magic(s: Seq<u8>, pos: int)
    requires
        0 <= pos,
        pos + 7 <= s.len(),
        s.len() <= usize::MAX,
    ensures
        (be_i32_at(s, pos) >= 0) <==> (s[pos] < 0x80u8),
        (spec_frame_step(s, pos, false) == FrameStep::Decode { start: (pos + 4) as usize })
            <==> (be_i32_at(s, pos) >= 0 && magic_at(s, pos + 4)),
        (spec_frame_step(s, pos, false) == FrameStep::Finish)
            <==> (be_i32_at(s, pos) < 0 || !magic_at(s, pos + 4)),
{
    let b0 = s[pos] as int;
    let b1 = s[pos + 1] as int;
    let b2 = s[pos + 2] as int;
    let b3 = s[pos + 3] as int;
    assert(0 <= b1 * 0x1_0000 + b2 * 0x100 + b3 < 0x100_0000);
    assert(b0 < 0x80 ==> b0 * 0x100_0000 + 0x100_0000 <= 0x8000_0000);
    assert(b0 >= 0x80 ==> b0 * 0x100_0000 >= 0x8000_0000);
}

} // verus!
