//! Reading a raw PCM file block by block: what to do with each read, and
//! what a block decodes to.

use vstd::prelude::*;
use crate::cfg::SourceOptions;
use crate::fixed::SAMPLE_ONE;
use crate::format::decoded_stream;
use crate::format::parse_stream;
use crate::format::Signed16PCM;
use crate::input::deinterleaved;
use crate::input::stream_to_matrix;
use crate::input::Matrix;

verus! {

/// Where filling a block stands after a read.
#[derive(Clone, Copy, Debug, PartialEq, Eq, Structural)]
pub enum ReadProgress {
    /// This many bytes are in; read again into the rest.
    Continue(usize),
    /// The block is ready: full, or padded after the end of the file.
    Complete,
}

/// `buffer` with zeros from `from` on.
pub open spec fn zero_padded(buffer: Seq<u8>, from: int) -> Seq<u8> {
    Seq::new(buffer.len(), |i: int| if i < from {
        buffer[i]
    } else {
        0u8
    })
}

/// Overwrites `buffer` with zeros from `from` on.
pub fn pad_with_zeros(buffer: &mut Vec<u8>, from: usize)
    requires
        from <= old(buffer)@.len(),
    ensures
        final(buffer)@ == zero_padded(old(buffer)@, from as int),
{
    let len: usize = buffer.len();
    let mut i: usize = from;
    while i < len
        invariant
            from <= i <= len,
            buffer@.len() == len,
            len == old(buffer)@.len(),
            forall|k: int| 0 <= k < from ==> buffer@[k] == old(buffer)@[k],
            forall|k: int| from <= k < i ==> buffer@[k] == 0,
        decreases len - i,
    {
        buffer[i] = 0;
        i += 1;
    }
}

/// Takes up the outcome of one read into the rest of the block: `n` bytes
/// arrived behind the `read_so_far` that were in. No byte means the end of
/// the file: the rest of the block becomes zeros.
pub fn absorb_read(buffer: &mut Vec<u8>, read_so_far: usize, n: usize) -> (progress: ReadProgress)
    requires
        read_so_far < old(buffer)@.len(),
        n <= old(buffer)@.len() - read_so_far,
    ensures
        n == 0 ==> progress == ReadProgress::Complete && final(buffer)@ == zero_padded(
            old(buffer)@,
            read_so_far as int,
        ),
        n > 0 ==> final(buffer)@ == old(buffer)@,
        n > 0 && read_so_far + n < old(buffer)@.len() ==> progress == ReadProgress::Continue(
            (read_so_far + n) as usize,
        ),
        n > 0 && read_so_far + n == old(buffer)@.len() ==> progress == ReadProgress::Complete,
{
    let len: usize = buffer.len();
    if n > 0 {
        let filled: usize = read_so_far + n;
        if filled < len {
            ReadProgress::Continue(filled)
        } else {
            ReadProgress::Complete
        }
    } else {
        pad_with_zeros(buffer, read_so_far);
        ReadProgress::Complete
    }
}

impl SourceOptions {
    /// The size of one block of a file source in bytes, `buffer * channels`;
    /// nothing where that cannot be written.
    pub fn file_buffer_len(&self) -> (len: Option<usize>)
        ensures
            len == if self.buffer * self.channels <= usize::MAX {
                Some((self.buffer * self.channels) as usize)
            } else {
                None::<usize>
            },
    {
        (self.buffer as usize).checked_mul(self.channels)
    }
}

/// The matrix that a block of 16-bit PCM holds: its samples decoded and
/// dealt to `channels` channels.
pub fn file_frame(block: &[u8], channels: usize) -> (matrix: Matrix)
    requires
        block@.len() % 2 == 0,
        channels > 0 || block@.len() == 0,
    ensures
        matrix.deep_view() == deinterleaved(
            decoded_stream::<Signed16PCM>(block@),
            channels as int,
            SAMPLE_ONE as int,
        ),
{
    let stream = parse_stream::<Signed16PCM>(block);
    stream_to_matrix(stream.as_slice(), channels, SAMPLE_ONE as u32)
}

} // verus!
