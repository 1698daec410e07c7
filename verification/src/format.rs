//! Decoding of fixed-width binary sample encodings.

use vstd::prelude::*;
use crate::fixed::normalized;
use crate::fixed::normalize;

verus! {

/// A sample encoding: a chunk of `width()` bytes decodes to one amplitude.
///
/// A new encoding is a new implementation; `parse` never branches on the
/// format.
pub trait SampleParser {
    /// The number of bytes in one encoded sample.
    spec fn width() -> nat;

    /// The amplitude, in millionths, that a chunk stands for.
    spec fn amplitude(chunk: Seq<u8>) -> int;

    /// The number of bytes in one encoded sample; at least one.
    fn chunk_width() -> (width: usize)
        ensures
            width == Self::width(),
            width > 0,
    ;

    /// Decodes one chunk of exactly `width()` bytes.
    fn parse(chunk: &[u8]) -> (sample: i32)
        requires
            chunk@.len() == Self::width(),
        ensures
            sample == Self::amplitude(chunk@),
    ;
}

/// Signed 16-bit little-endian PCM.
pub struct Signed16PCM;

/// The magnitude of the most negative 16-bit sample: it decodes to -1.0.
pub const PCM16_FULL_SCALE: u32 = 32768;

/// The two's-complement value of a little-endian byte pair.
pub open spec fn pcm16_value(lo: u8, hi: u8) -> int {
    let raw = lo as int + 256 * (hi as int);
    if raw >= 32768 {
        raw - 65536
    } else {
        raw
    }
}

impl SampleParser for Signed16PCM {
    open spec fn width() -> nat {
        2
    }

    open spec fn amplitude(chunk: Seq<u8>) -> int {
        normalized(pcm16_value(chunk[0], chunk[1]), PCM16_FULL_SCALE as int)
    }

    fn chunk_width() -> (width: usize) {
        2
    }

    fn parse(chunk: &[u8]) -> (sample: i32) {
        let lo: i32 = chunk[0] as i32;
        let hi: i32 = chunk[1] as i32;
        let raw: i32 = lo + 256 * hi;
        let value: i32 = if raw >= 32768 {
            raw - 65536
        } else {
            raw
        };
        normalize(value, PCM16_FULL_SCALE)
    }
}

/// Every 16-bit sample decodes to an amplitude from -1.0, for the most
/// negative sample, to just under 1.0.
pub proof fn lemma_pcm16_in_range(chunk: Seq<u8>)
    requires
        chunk.len() == 2,
    ensures
        -1_000_000 <= Signed16PCM::amplitude(chunk) <= 999_969,
        pcm16_value(chunk[0], chunk[1]) == -32768 ==> Signed16PCM::amplitude(chunk) == -1_000_000,
{
    let value = pcm16_value(chunk[0], chunk[1]);
    if value >= 0 {
        vstd::arithmetic::div_mod::lemma_div_is_ordered(value * 1_000_000, 32_767_000_000int, 32768);
        vstd::arithmetic::div_mod::lemma_div_pos_is_pos(value * 1_000_000, 32768);
    } else {
        vstd::arithmetic::div_mod::lemma_div_is_ordered(
            (-value) * 1_000_000,
            32_768_000_000int,
            32768,
        );
        vstd::arithmetic::div_mod::lemma_div_pos_is_pos((-value) * 1_000_000, 32768);
    }
}

/// The amplitudes that a run of whole chunks decodes to, chunk by chunk.
pub open spec fn decoded_stream<P: SampleParser>(bytes: Seq<u8>) -> Seq<i32> {
    Seq::new(
        bytes.len() / P::width(),
        |i: int| P::amplitude(bytes.subrange(i * P::width(), (i + 1) * P::width())) as i32,
    )
}

/// Decodes a buffer of whole chunks.
pub fn parse_stream<P: SampleParser>(bytes: &[u8]) -> (stream: Vec<i32>)
    requires
        bytes@.len() % P::width() == 0,
    ensures
        stream@ == decoded_stream::<P>(bytes@),
{
    let width: usize = P::chunk_width();
    let count: usize = bytes.len() / width;
    let mut stream: Vec<i32> = Vec::new();
    let mut i: usize = 0;
    proof {
        vstd::arithmetic::div_mod::lemma_fundamental_div_mod(bytes@.len() as int, width as int);
    }
    while i < count
        invariant
            i <= count,
            width == P::width(),
            width > 0,
            count == bytes@.len() / (width as nat),
            bytes@.len() == width * count,
            bytes@.len() <= usize::MAX,
            stream@.len() == i,
            forall|k: int|
                0 <= k < i ==> #[trigger] stream@[k] == P::amplitude(
                    bytes@.subrange(k * width, (k + 1) * width),
                ),
        decreases count - i,
    {
        proof {
            assert(0 <= i * width && (i + 1) * width <= width * count && (i + 1) * width == i
                * width + width) by (nonlinear_arith)
                requires
                    0 <= i < count,
                    width > 0,
            ;
        }
        let chunk: &[u8] = vstd::slice::slice_subrange(bytes, i * width, (i + 1) * width);
        stream.push(P::parse(chunk));
        i += 1;
    }
    stream
}

} // verus!
