//! From a flat sample stream to per-channel buffers.

use vstd::prelude::*;
use vstd::arithmetic::div_mod::lemma_fundamental_div_mod;
use vstd::arithmetic::div_mod::lemma_fundamental_div_mod_converse;
use vstd::arithmetic::div_mod::lemma_mod_bound;
use vstd::arithmetic::div_mod::lemma_div_pos_is_pos;
use crate::fixed::SAMPLE_ONE;
use crate::fixed::normalized;
use crate::fixed::normalize;

verus! {

/// Per-channel sample buffers: `matrix[c][j]` is the `j`-th sample of channel
/// `c`, an amplitude in millionths.
pub type Matrix = Vec<Vec<i32>>;

/// How many of the first `total` stream positions fall to channel `c` when
/// positions are dealt round-robin to `channels` channels.
pub open spec fn channel_len(total: int, channels: int, c: int) -> int {
    if c < total {
        (total - c - 1) / channels + 1
    } else {
        0
    }
}

/// The matrix that a stream de-interleaves to: channel `c` holds the
/// normalized samples of positions `c`, `c + channels`, `c + 2 * channels`, ...
pub open spec fn deinterleaved(stream: Seq<i32>, channels: int, norm: int) -> Seq<Seq<i32>> {
    Seq::new(
        channels as nat,
        |c: int|
            Seq::new(
                channel_len(stream.len() as int, channels, c) as nat,
                |j: int| normalized(stream[j * channels + c] as int, norm) as i32,
            ),
    )
}

/// Where the matrices come from: a file, a device, a stream.
pub trait DataSource {
    /// The next matrix, padded with zeros where the source ran short; or
    /// nothing, once and for all, when the source is exhausted.
    fn recv(&mut self) -> Option<Matrix>;
}

/// `total / channels` rounded up.
pub open spec fn ceil_div(total: int, channels: int) -> int {
    (total + channels - 1) / channels
}

/// The stream that dealing the cells of `matrix` out again gives: position
/// `i` is read from channel `i % channels`, index `i / channels`.
pub open spec fn interleaved(matrix: Seq<Seq<i32>>, total: int) -> Seq<i32> {
    Seq::new(total as nat, |i: int| matrix[i % (matrix.len() as int)][i / (matrix.len() as int)])
}

/// The stream with every value divided by `norm`.
pub open spec fn normalized_stream(stream: Seq<i32>, norm: int) -> Seq<i32> {
    Seq::new(stream.len(), |i: int| normalized(stream[i] as int, norm) as i32)
}

/// De-interleaves `stream` over `channels` buffers, dividing each decoded
/// value by `norm`, the count that stands for full scale.
///
/// Position `i` goes to channel `i % channels`. Where the stream's length is
/// no multiple of `channels`, the last channels come out one sample short.
/// A stream that is normalized already is passed with `SAMPLE_ONE` for
/// `norm`, which changes no value.
pub fn stream_to_matrix(stream: &[i32], channels: usize, norm: u32) -> (matrix: Matrix)
    requires
        norm > 0,
        channels > 0 || stream@.len() == 0,
    ensures
        matrix.deep_view() == deinterleaved(stream@, channels as int, norm as int),
{
    let mut out: Matrix = Vec::new();
    let mut c: usize = 0;
    while c < channels
        invariant
            c <= channels,
            out@.len() == c,
            forall|k: int| 0 <= k < c ==> (#[trigger] out@[k])@.len() == 0,
        decreases channels - c,
    {
        out.push(Vec::new());
        c += 1;
    }
    let mut i: usize = 0;
    let mut round: usize = 0;
    let mut channel: usize = 0;
    while i < stream.len()
        invariant
            norm > 0,
            channels > 0 || stream@.len() == 0,
            i <= stream@.len(),
            out@.len() == channels,
            i == round * channels + channel,
            channel < channels || i == 0,
            forall|k: int| 0 <= k < channel ==> (#[trigger] out@[k])@.len() == round + 1,
            forall|k: int| channel <= k < channels ==> (#[trigger] out@[k])@.len() == round,
            forall|k: int, j: int|
                0 <= k < channels && 0 <= j < out@[k]@.len() ==> (#[trigger] out@[k]@[j]) == normalized(
                    stream@[j * channels + k] as int,
                    norm as int,
                ),
        decreases stream@.len() - i,
    {
        let sample: i32 = normalize(stream[i], norm);
        out[channel].push(sample);
        proof {
            assert((round + 1) * channels == round * channels + channels) by (nonlinear_arith);
            assert(round <= round * channels) by (nonlinear_arith)
                requires
                    channels >= 1,
                    round >= 0,
            ;
        }
        i += 1;
        channel += 1;
        if channel == channels {
            channel = 0;
            round += 1;
        }
    }
    proof {
        let want = deinterleaved(stream@, channels as int, norm as int);
        assert forall|k: int| 0 <= k < channels implies #[trigger] out.deep_view()[k] == want[k] by {
            lemma_channel_len_split(round as int, channel as int, channels as int, k);
        }
    }
    out
}

/// The length of channel `c` after `round` full rounds and `channel` more
/// positions.
proof fn lemma_channel_len_split(round: int, channel: int, channels: int, c: int)
    requires
        0 <= round,
        0 <= channel < channels,
        0 <= c < channels,
    ensures
        channel_len(round * channels + channel, channels, c) == if c < channel {
            round + 1
        } else {
            round
        },
{
    let total = round * channels + channel;
    if c < channel {
        lemma_fundamental_div_mod_converse(total - c - 1, channels, round, channel - c - 1);
    } else if c < total {
        assert(round >= 1) by (nonlinear_arith)
            requires
                c < round * channels + channel,
                c >= channel,
                0 <= round,
                channels > 0,
        ;
        assert(total - c - 1 == (round - 1) * channels + (channels + channel - c - 1))
            by (nonlinear_arith)
            requires
                total == round * channels + channel,
        ;
        lemma_fundamental_div_mod_converse(
            total - c - 1,
            channels,
            round - 1,
            channels + channel - c - 1,
        );
    } else {
        assert(round >= 1 ==> round * channels >= channels) by (nonlinear_arith)
            requires
                channels > 0,
        ;
    }
}

/// The length of every channel buffer: `total / channels`, and one more for
/// the first `total % channels` channels. So no buffer is longer than
/// `total / channels` rounded up, the first buffer is exactly that long, and
/// all are when `channels` divides `total`.
pub proof fn lemma_channel_len(total: int, channels: int, c: int)
    requires
        0 <= total,
        0 <= c < channels,
    ensures
        channel_len(total, channels, c) == total / channels + if c < total % channels {
            1int
        } else {
            0int
        },
        channel_len(total, channels, c) <= ceil_div(total, channels),
        c == 0 || total % channels == 0 ==> channel_len(total, channels, c) == ceil_div(
            total,
            channels,
        ),
{
    let q = total / channels;
    let r = total % channels;
    lemma_fundamental_div_mod(total, channels);
    lemma_mod_bound(total, channels);
    lemma_div_pos_is_pos(total, channels);
    assert(total == q * channels + r) by (nonlinear_arith)
        requires
            total == channels * q + r,
    ;
    lemma_channel_len_split(q, r, channels, c);
    if r == 0 {
        lemma_fundamental_div_mod_converse(total + channels - 1, channels, q, channels - 1);
    } else {
        assert(total + channels - 1 == (q + 1) * channels + (r - 1)) by (nonlinear_arith)
            requires
                total == q * channels + r,
        ;
        lemma_fundamental_div_mod_converse(total + channels - 1, channels, q + 1, r - 1);
    }
}

/// Round-robin assignment is one-to-one: stream position `i` lands in cell
/// `i / channels` of channel `i % channels`, which exists, and the position
/// is found again from the cell.
pub proof fn lemma_position_has_cell(total: int, channels: int, i: int)
    requires
        0 < channels,
        0 <= i < total,
    ensures
        0 <= i % channels < channels,
        0 <= i / channels < channel_len(total, channels, i % channels),
        (i / channels) * channels + i % channels == i,
{
    let q = i / channels;
    let r = i % channels;
    lemma_fundamental_div_mod(i, channels);
    lemma_mod_bound(i, channels);
    lemma_div_pos_is_pos(i, channels);
    assert(q * channels + r == i) by (nonlinear_arith)
        requires
            i == channels * q + r,
    ;
    lemma_cell_in_range(total, channels, r, q);
}

/// Round-robin assignment is onto: cell `j` of channel `c` holds a position
/// of the stream, `j * channels + c`, and is the cell that this position
/// lands in.
pub proof fn lemma_cell_has_position(total: int, channels: int, c: int, j: int)
    requires
        0 <= total,
        0 <= c < channels,
        0 <= j < channel_len(total, channels, c),
    ensures
        0 <= j * channels + c < total,
        (j * channels + c) % channels == c,
        (j * channels + c) / channels == j,
{
    lemma_cell_in_range(total, channels, c, j);
    assert(0 <= j * channels) by (nonlinear_arith)
        requires
            0 <= j,
            0 < channels,
    ;
    lemma_fundamental_div_mod_converse(j * channels + c, channels, j, c);
}

/// Cell `j` of channel `c` exists exactly when position `j * channels + c`
/// lies in the stream.
proof fn lemma_cell_in_range(total: int, channels: int, c: int, j: int)
    requires
        0 <= total,
        0 <= c < channels,
        0 <= j,
    ensures
        j < channel_len(total, channels, c) <==> j * channels + c < total,
{
    let q = total / channels;
    let r = total % channels;
    lemma_channel_len(total, channels, c);
    lemma_fundamental_div_mod(total, channels);
    lemma_mod_bound(total, channels);
    assert(total == q * channels + r) by (nonlinear_arith)
        requires
            total == channels * q + r,
    ;
    if j < q {
        assert(j * channels + channels <= q * channels) by (nonlinear_arith)
            requires
                j + 1 <= q,
                0 < channels,
        ;
    } else if j > q {
        assert(j * channels >= q * channels + channels) by (nonlinear_arith)
            requires
                j >= q + 1,
                0 < channels,
        ;
    }
}

/// Dealing the cells of the matrix out again, round-robin, gives back the
/// normalized stream, value for value.
pub proof fn lemma_round_robin_reconstructs(stream: Seq<i32>, channels: int, norm: int)
    requires
        0 < channels,
    ensures
        interleaved(deinterleaved(stream, channels, norm), stream.len() as int)
            == normalized_stream(stream, norm),
{
    let total = stream.len() as int;
    let matrix = deinterleaved(stream, channels, norm);
    let back = interleaved(matrix, total);
    let want = normalized_stream(stream, norm);
    assert forall|i: int| 0 <= i < total implies #[trigger] back[i] == want[i] by {
        lemma_position_has_cell(total, channels, i);
    }
}

/// Dividing by full scale itself changes no value: a stream that is already
/// normalized passes through `stream_to_matrix` untouched.
pub proof fn lemma_unit_norm_is_identity(value: i32)
    ensures
        normalized(value as int, SAMPLE_ONE as int) == value,
{
    let v = value as int;
    if v >= 0 {
        lemma_fundamental_div_mod_converse(v * 1_000_000, 1_000_000, v, 0);
    } else {
        lemma_fundamental_div_mod_converse((-v) * 1_000_000, 1_000_000, -v, 0);
    }
}

} // verus!
