//! The output format of a stream and the accounting of one buffer fill.

use vstd::prelude::*;

verus! {

/// Bytes of one sample: a 32-bit float.
pub const SAMPLE_SIZE: u64 = 4;

/// Rate and channel count of a stream.
#[derive(Clone, Copy, Debug, PartialEq, Eq, Structural)]
pub struct StreamMetadata {
    pub rate: u32,
    pub channels: u32,
}

/// What the engine declares back to the sink after a buffer fill.
#[derive(Clone, Copy, Debug, PartialEq, Eq, Structural)]
pub struct ChunkDeclaration {
    pub offset: u64,
    pub stride: u64,
    pub size: u64,
}

/// Bytes of one frame of `channels` interleaved samples.
pub open spec fn frame_stride(channels: u32) -> int {
    SAMPLE_SIZE * channels
}

/// Whole frames that fit in `len` bytes.
pub open spec fn frame_capacity(len: int, stride: int) -> int
    recommends
        stride > 0,
{
    len / stride
}

/// Frames that one fill moves: as many as the output takes and the chunk has.
pub open spec fn frames_to_write(out_len: int, chunk_len: int, stride: int) -> int
    recommends
        stride > 0,
{
    if frame_capacity(out_len, stride) <= frame_capacity(chunk_len, stride) {
        frame_capacity(out_len, stride)
    } else {
        frame_capacity(chunk_len, stride)
    }
}

/// The declaration for `frames` frames written from the start of the buffer.
pub open spec fn declaration_for(stride: int, frames: int) -> ChunkDeclaration
    recommends
        0 <= stride * frames <= u64::MAX,
{
    ChunkDeclaration { offset: 0, stride: stride as u64, size: (stride * frames) as u64 }
}

impl StreamMetadata {
    /// Only stereo streams are played.
    pub open spec fn is_supported(&self) -> bool {
        self.channels == 2
    }

    pub fn supported(&self) -> (ok: bool)
        ensures
            ok == self.is_supported(),
    {
        self.channels == 2
    }

    /// Bytes of one frame.
    pub fn stride(&self) -> (stride: u64)
        ensures
            stride == frame_stride(self.channels),
    {
        SAMPLE_SIZE * (self.channels as u64)
    }
}

proof fn lemma_frames_fit(len: int, stride: int)
    requires
        0 <= len,
        0 < stride,
    ensures
        0 <= len / stride,
        (len / stride) * stride <= len,
        stride * (len / stride) <= len,
        len / stride <= len,
{
    vstd::arithmetic::div_mod::lemma_fundamental_div_mod(len, stride);
    vstd::arithmetic::div_mod::lemma_div_pos_is_pos(len, stride);
    vstd::arithmetic::div_mod::lemma_mod_bound(len, stride);
    vstd::arithmetic::mul::lemma_mul_is_commutative(stride, len / stride);
    vstd::arithmetic::div_mod::lemma_div_is_ordered_by_denominator(len, 1, stride);
}

/// Copies whole frames from the start of `chunk` to the start of `out` and
/// returns their number. Bytes of `out` behind them are left as they were.
pub fn copy_frames(out: &mut [u8], chunk: &[u8], stride: u64) -> (frames: usize)
    requires
        stride > 0,
    ensures
        frames == frames_to_write(old(out)@.len() as int, chunk@.len() as int, stride as int),
        frames * stride <= old(out)@.len() <= usize::MAX,
        frames * stride <= chunk@.len(),
        final(out)@.len() == old(out)@.len(),
        final(out)@.subrange(0, frames * stride) == chunk@.subrange(0, frames * stride),
        final(out)@.subrange(frames * stride, old(out)@.len() as int) == old(out)@.subrange(
            frames * stride,
            old(out)@.len() as int,
        ),
{
    let out_len: usize = out.len();
    let chunk_len: usize = chunk.len();
    proof {
        lemma_frames_fit(out_len as int, stride as int);
        lemma_frames_fit(chunk_len as int, stride as int);
    }
    let capacity: u64 = out_len as u64 / stride;
    let available: u64 = chunk_len as u64 / stride;
    let frames: u64 = if capacity <= available { capacity } else { available };
    assert(frames * stride <= out_len && frames * stride <= chunk_len) by (nonlinear_arith)
        requires
            frames <= capacity,
            frames <= available,
            capacity * stride <= out_len,
            available * stride <= chunk_len,
            stride > 0,
    ;
    let total: usize = (frames * stride) as usize;
    let mut i: usize = 0;
    while i < total
        invariant
            i <= total,
            total <= out_len,
            total <= chunk_len,
            out_len == old(out)@.len(),
            chunk_len == chunk@.len(),
            out@.len() == old(out)@.len(),
            out@.subrange(0, i as int) == chunk@.subrange(0, i as int),
            out@.subrange(total as int, out_len as int) == old(out)@.subrange(
                total as int,
                out_len as int,
            ),
        decreases total - i,
    {
        let ghost before = out@;
        out[i] = chunk[i];
        assert(out@.subrange(0, i + 1) =~= before.subrange(0, i as int).push(chunk@[i as int]));
        assert(chunk@.subrange(0, i + 1) =~= chunk@.subrange(0, i as int).push(chunk@[i as int]));
        assert(out@.subrange(total as int, out_len as int) =~= before.subrange(
            total as int,
            out_len as int,
        ));
        i += 1;
    }
    frames as usize
}

} // verus!
