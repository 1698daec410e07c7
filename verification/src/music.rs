//! Musical pitch, and the buffer length that keeps a note still on screen.

use vstd::prelude::*;
use vstd::string::StrSliceExecFns;
use vstd::arithmetic::div_mod::lemma_fundamental_div_mod_converse;
use vstd::arithmetic::div_mod::lemma_fundamental_div_mod;
use vstd::arithmetic::div_mod::lemma_mod_bound;
use vstd::arithmetic::power2::pow2;
use vstd::arithmetic::power2::lemma_pow2_unfold;
use vstd::arithmetic::power2::lemma_pow2_strictly_increases;
use vstd::arithmetic::power2::lemma2_to64;

verus! {

/// The twelve pitch classes of the equal-tempered scale, flats for the black
/// keys.
#[derive(Clone, Copy, Debug, PartialEq, Eq, Structural)]
pub enum Tone {
    C,
    Db,
    D,
    Eb,
    E,
    F,
    Gb,
    G,
    Ab,
    A,
    Bb,
    B,
}

/// A pitch: a tone in an octave, in scientific pitch notation (A4 = 440 Hz).
#[derive(Clone, Copy, Debug, PartialEq, Eq, Structural)]
pub struct Note {
    pub tone: Tone,
    pub octave: u32,
}

/// 1 Hz, in the nano-hertz that frequencies are counted in.
pub const HERTZ: u64 = 1_000_000_000;

impl Tone {
    /// Semitones above C.
    pub open spec fn semitone(self) -> int {
        match self {
            Tone::C => 0,
            Tone::Db => 1,
            Tone::D => 2,
            Tone::Eb => 3,
            Tone::E => 4,
            Tone::F => 5,
            Tone::Gb => 6,
            Tone::G => 7,
            Tone::Ab => 8,
            Tone::A => 9,
            Tone::Bb => 10,
            Tone::B => 11,
        }
    }

    /// The frequency of the tone in octave 0, in nano-hertz, rounded down.
    pub open spec fn base_frequency(self) -> int {
        match self {
            Tone::C => 16_351_597_831,
            Tone::Db => 17_323_914_436,
            Tone::D => 18_354_047_994,
            Tone::Eb => 19_445_436_482,
            Tone::E => 20_601_722_307,
            Tone::F => 21_826_764_464,
            Tone::Gb => 23_124_651_419,
            Tone::G => 24_499_714_748,
            Tone::Ab => 25_956_543_598,
            Tone::A => 27_500_000_000,
            Tone::Bb => 29_135_235_094,
            Tone::B => 30_867_706_328,
        }
    }

    /// The frequency of the tone in octave 0, in nano-hertz.
    pub fn base(self) -> (nano: u64)
        ensures
            nano == self.base_frequency(),
            16_000_000_000 <= nano < 32_000_000_000,
    {
        match self {
            Tone::C => 16_351_597_831,
            Tone::Db => 17_323_914_436,
            Tone::D => 18_354_047_994,
            Tone::Eb => 19_445_436_482,
            Tone::E => 20_601_722_307,
            Tone::F => 21_826_764_464,
            Tone::Gb => 23_124_651_419,
            Tone::G => 24_499_714_748,
            Tone::Ab => 25_956_543_598,
            Tone::A => 27_500_000_000,
            Tone::Bb => 29_135_235_094,
            Tone::B => 30_867_706_328,
        }
    }
}

/// `a / b` rounded to the nearest integer, halves up.
pub open spec fn rounded_div(a: int, b: int) -> int {
    (2 * a + b) / (2 * b)
}

impl Note {
    /// The fundamental frequency in nano-hertz: the tone's frequency in
    /// octave 0, doubled once per octave.
    pub open spec fn frequency(self) -> int {
        self.tone.base_frequency() * pow2(self.octave as nat)
    }

    /// The length of one period in samples, `sample_rate / frequency`,
    /// rounded to the nearest sample.
    pub open spec fn period(self, sample_rate: int) -> int {
        rounded_div(sample_rate * HERTZ, self.frequency())
    }

    /// The number of samples in one period of the note at `sample_rate`,
    /// rounded to the nearest sample.
    pub fn period_in_samples(&self, sample_rate: u32) -> (samples: u32)
        ensures
            samples == self.period(sample_rate as int),
            samples <= 0x1000_0000,
    {
        let base: u64 = self.tone.base();
        let num: u128 = (sample_rate as u128) * 1_000_000_000;
        if self.octave >= 30 {
            proof {
                lemma2_to64();
                if self.octave > 30 {
                    lemma_pow2_strictly_increases(30, self.octave as nat);
                }
                let f = self.frequency();
                assert(f >= 16_000_000_000 * 0x40000000) by (nonlinear_arith)
                    requires
                        f == base * pow2(self.octave as nat),
                        base >= 16_000_000_000,
                        pow2(self.octave as nat) >= 0x40000000,
                ;
                lemma_fundamental_div_mod_converse(2 * num + f, 2 * f, 0, 2 * num + f);
            }
            return 0;
        }
        let mut frequency: u128 = base as u128;
        let mut doubled: u32 = 0;
        proof {
            lemma2_to64();
        }
        while doubled < self.octave
            invariant
                doubled <= self.octave < 30,
                frequency == base * pow2(doubled as nat),
                16_000_000_000 <= base < 32_000_000_000,
                frequency < 32_000_000_000 * pow2(doubled as nat),
            decreases self.octave - doubled,
        {
            proof {
                lemma_pow2_unfold((doubled + 1) as nat);
                lemma2_to64();
                if doubled < 29 {
                    lemma_pow2_strictly_increases(doubled as nat, 29);
                }
                assert(32_000_000_000 * pow2(doubled as nat) <= 32_000_000_000 * 0x20000000)
                    by (nonlinear_arith)
                    requires
                        pow2(doubled as nat) <= 0x20000000,
                ;
                assert(base * (2 * pow2(doubled as nat)) == 2 * (base * pow2(doubled as nat)))
                    by (nonlinear_arith);
            }
            frequency = frequency * 2;
            doubled += 1;
        }
        proof {
            lemma2_to64();
            if doubled < 29 {
                lemma_pow2_strictly_increases(doubled as nat, 29);
            }
            assert(32_000_000_000 * pow2(doubled as nat) <= 32_000_000_000 * 0x20000000)
                by (nonlinear_arith)
                requires
                    pow2(doubled as nat) <= 0x20000000,
            ;
            assert(frequency >= 16_000_000_000) by (nonlinear_arith)
                requires
                    frequency == base * pow2(doubled as nat),
                    base >= 16_000_000_000,
                    pow2(doubled as nat) >= 1,
            ;
        }
        let quotient: u128 = (2 * num + frequency) / (2 * frequency);
        proof {
            let f = frequency as int;
            let top = 2 * num + f;
            lemma_fundamental_div_mod(top, 2 * f);
            lemma_mod_bound(top, 2 * f);
            assert(quotient <= 0x1000_0000) by (nonlinear_arith)
                requires
                    top == (2 * f) * quotient + top % (2 * f),
                    0 <= top % (2 * f),
                    top == 2 * num + f,
                    num <= 0xffff_ffff * 1_000_000_000,
                    f >= 16_000_000_000,
                    quotient >= 0,
            ;
        }
        quotient as u32
    }
}

/// Whether `c` is an ASCII decimal digit.
pub open spec fn is_digit(c: char) -> bool {
    48 <= c as u32 <= 57
}

/// Whether every character is an ASCII decimal digit.
pub open spec fn all_digits(text: Seq<char>) -> bool {
    forall|i: int| 0 <= i < text.len() ==> is_digit(#[trigger] text[i])
}

/// The number that a run of decimal digits writes; zero for no digits.
pub open spec fn digits_value(text: Seq<char>) -> int
    decreases text.len(),
{
    if text.len() == 0 {
        0
    } else {
        digits_value(text.drop_last()) * 10 + (text.last() as u32 - 48)
    }
}

/// The tone that a name stands for: a letter from `A` to `G`, alone or with
/// `#` or `b`, for the twelve tones of the scale (`C#` and `Db` are one tone;
/// there is no `E#`, `Fb`, `B#` or `Cb`).
pub open spec fn tone_named(name: Seq<char>) -> Option<Tone> {
    if name =~= seq!['C'] {
        Some(Tone::C)
    } else if name =~= seq!['C', '#'] || name =~= seq!['D', 'b'] {
        Some(Tone::Db)
    } else if name =~= seq!['D'] {
        Some(Tone::D)
    } else if name =~= seq!['D', '#'] || name =~= seq!['E', 'b'] {
        Some(Tone::Eb)
    } else if name =~= seq!['E'] {
        Some(Tone::E)
    } else if name =~= seq!['F'] {
        Some(Tone::F)
    } else if name =~= seq!['F', '#'] || name =~= seq!['G', 'b'] {
        Some(Tone::Gb)
    } else if name =~= seq!['G'] {
        Some(Tone::G)
    } else if name =~= seq!['G', '#'] || name =~= seq!['A', 'b'] {
        Some(Tone::Ab)
    } else if name =~= seq!['A'] {
        Some(Tone::A)
    } else if name =~= seq!['A', '#'] || name =~= seq!['B', 'b'] {
        Some(Tone::Bb)
    } else if name =~= seq!['B'] {
        Some(Tone::B)
    } else {
        None
    }
}

/// Whether `text` is a tone name of `name_len` characters followed by the
/// digits of an octave that a `u32` holds.
pub open spec fn splits_at(text: Seq<char>, name_len: int) -> bool {
    &&& name_len <= text.len()
    &&& tone_named(text.take(name_len)) is Some
    &&& all_digits(text.skip(name_len))
    &&& digits_value(text.skip(name_len)) <= u32::MAX
}

/// The note that `text` names, if it names one: a tone name, then the octave
/// in decimal, which is 0 where no digit follows. `A4`, `C#3`, `Eb`.
pub open spec fn parsed_note(text: Seq<char>) -> Option<Note> {
    if splits_at(text, 2) {
        Some(
            Note {
                tone: tone_named(text.take(2))->Some_0,
                octave: digits_value(text.skip(2)) as u32,
            },
        )
    } else if splits_at(text, 1) {
        Some(
            Note {
                tone: tone_named(text.take(1))->Some_0,
                octave: digits_value(text.skip(1)) as u32,
            },
        )
    } else {
        None
    }
}

/// A prefix of a run of digits writes no larger a number than the run.
proof fn lemma_digits_prefix(text: Seq<char>, n: int)
    requires
        all_digits(text),
        0 <= n <= text.len(),
    ensures
        0 <= digits_value(text.take(n)) <= digits_value(text),
    decreases text.len(),
{
    if n == text.len() {
        assert(text.take(n) =~= text);
        if n > 0 {
            lemma_digits_prefix(text.drop_last(), n - 1);
        }
    } else {
        assert(text.drop_last().take(n) =~= text.take(n));
        lemma_digits_prefix(text.drop_last(), n);
    }
}

/// The tone that one or two characters name.
fn tone_from_chars(letter: char, accidental: Option<char>) -> (tone: Option<Tone>)
    ensures
        tone == tone_named(
            match accidental {
                Some(mark) => seq![letter, mark],
                None => seq![letter],
            },
        ),
        accidental is Some && tone is Some ==> !is_digit(accidental->Some_0),
{
    match accidental {
        None => {
            if letter == 'C' {
                Some(Tone::C)
            } else if letter == 'D' {
                Some(Tone::D)
            } else if letter == 'E' {
                Some(Tone::E)
            } else if letter == 'F' {
                Some(Tone::F)
            } else if letter == 'G' {
                Some(Tone::G)
            } else if letter == 'A' {
                Some(Tone::A)
            } else if letter == 'B' {
                Some(Tone::B)
            } else {
                None
            }
        },
        Some(mark) => {
            let sharp: bool = mark == '#';
            let flat: bool = mark == 'b';
            if (letter == 'C' && sharp) || (letter == 'D' && flat) {
                Some(Tone::Db)
            } else if (letter == 'D' && sharp) || (letter == 'E' && flat) {
                Some(Tone::Eb)
            } else if (letter == 'F' && sharp) || (letter == 'G' && flat) {
                Some(Tone::Gb)
            } else if (letter == 'G' && sharp) || (letter == 'A' && flat) {
                Some(Tone::Ab)
            } else if (letter == 'A' && sharp) || (letter == 'B' && flat) {
                Some(Tone::Bb)
            } else {
                None
            }
        },
    }
}

/// Reads the octave that follows a tone name of `start` characters.
fn parse_octave(text: &str, start: usize) -> (octave: Option<u32>)
    requires
        start <= text@.len(),
    ensures
        octave is Some <==> all_digits(text@.skip(start as int)) && digits_value(
            text@.skip(start as int),
        ) <= u32::MAX,
        octave is Some ==> octave->Some_0 == digits_value(text@.skip(start as int)),
{
    let len: usize = text.unicode_len();
    let ghost rest = text@.skip(start as int);
    let mut value: u64 = 0;
    let mut i: usize = start;
    while i < len
        invariant
            start <= i <= len == text@.len(),
            rest == text@.skip(start as int),
            all_digits(rest.take(i - start)),
            value == digits_value(rest.take(i - start)),
            value <= u32::MAX,
        decreases len - i,
    {
        let code: u32 = text.get_char(i) as u32;
        if code < 48 || code > 57 {
            assert(!is_digit(rest[i - start]));
            return None;
        }
        proof {
            let before = rest.take(i - start);
            let after = rest.take(i + 1 - start);
            assert(after.drop_last() =~= before);
            assert forall|k: int| 0 <= k < after.len() implies is_digit(#[trigger] after[k]) by {
                assert(k < before.len() ==> after[k] == before[k]);
            }
        }
        value = value * 10 + (code - 48) as u64;
        if value > 0xffff_ffff {
            proof {
                if all_digits(rest) {
                    lemma_digits_prefix(rest, i + 1 - start);
                }
            }
            return None;
        }
        i += 1;
    }
    assert(rest.take(i - start) =~= rest);
    Some(value as u32)
}

/// Reads a note from its name: a tone name, then the octave in decimal,
/// which is 0 where no digit follows. Anything else is no note.
pub fn parse_note(text: &str) -> (note: Option<Note>)
    ensures
        note == parsed_note(text@),
{
    let len: usize = text.unicode_len();
    if len == 0 {
        return None;
    }
    let letter: char = text.get_char(0);
    if len >= 2 {
        let mark: char = text.get_char(1);
        match tone_from_chars(letter, Some(mark)) {
            Some(tone) => {
                assert(!is_digit(text@.skip(1)[0]));
                return match parse_octave(text, 2) {
                    Some(octave) => Some(Note { tone, octave }),
                    None => None,
                };
            },
            None => {},
        }
    }
    match tone_from_chars(letter, None) {
        Some(tone) => match parse_octave(text, 1) {
            Some(octave) => Some(Note { tone, octave }),
            None => None,
        },
        None => None,
    }
}

/// Whether `x` is an exact multiple of `m`. Zero alone is a multiple of zero.
pub open spec fn is_multiple(x: int, m: int) -> bool {
    if m == 0 {
        x == 0
    } else {
        x % m == 0
    }
}

/// The buffer length for a period: the period itself, the smallest of its
/// multiples, unless that is an exact multiple of `2 * channels`; then one
/// sample more.
pub open spec fn tuned_size(period: int, channels: int) -> int {
    if is_multiple(period, 2 * channels) {
        period + 1
    } else {
        period
    }
}

/// The buffer length in tune with `note`: one period of it at `sample_rate`,
/// kept off the exact multiples of `2 * channels`, on which frames tear.
///
/// The result is never a multiple of `2 * channels`. It is the period, and
/// so the smallest whole multiple of it, whenever any multiple of the period
/// avoids those multiples (see `lemma_multiples_stay_aligned`); otherwise it
/// is the period plus one.
pub fn tune_buffer_size(note: &Note, sample_rate: u32, channels: usize) -> (size: u32)
    ensures
        size == tuned_size(note.period(sample_rate as int), channels as int),
        !is_multiple(size as int, 2 * channels),
        !is_multiple(note.period(sample_rate as int), 2 * channels) ==> size == note.period(
            sample_rate as int,
        ),
{
    let period: u32 = note.period_in_samples(sample_rate);
    let modulus: u128 = 2 * (channels as u128);
    let on_multiple: bool = if modulus == 0 {
        period == 0
    } else {
        (period as u128) % modulus == 0
    };
    if on_multiple {
        proof {
            if modulus != 0 {
                lemma_fundamental_div_mod(period as int, modulus as int);
                lemma_fundamental_div_mod_converse(
                    period + 1,
                    modulus as int,
                    period as int / modulus as int,
                    1,
                );
            }
        }
        period + 1
    } else {
        period
    }
}

/// Where the period is an exact multiple of `2 * channels`, so is every
/// multiple of the period: no whole number of periods stays off those
/// multiples, and `tune_buffer_size` falls back to one sample more.
pub proof fn lemma_multiples_stay_aligned(period: int, channels: int, k: int)
    requires
        0 <= period,
        0 <= channels,
        0 <= k,
        is_multiple(period, 2 * channels),
    ensures
        is_multiple(k * period, 2 * channels),
{
    let m = 2 * channels;
    if m == 0 {
        assert(k * period == 0) by (nonlinear_arith)
            requires
                period == 0,
        ;
    } else {
        lemma_fundamental_div_mod(period, m);
        let q = period / m;
        assert(k * period == m * (k * q) + 0) by (nonlinear_arith)
            requires
                period == m * q + 0,
        ;
        lemma_fundamental_div_mod_converse(k * period, m, k * q, 0);
    }
}

/// A4, the pitch that the scale is tuned to.
pub open spec fn concert_pitch() -> Note {
    Note { tone: Tone::A, octave: 4 }
}

/// The twelfth power.
pub open spec fn twelfth_power(x: int) -> int {
    let x2 = x * x;
    let x4 = x2 * x2;
    x4 * x4 * x4
}

/// The table of `base_frequency` is the equal-tempered scale on A4 = 440 Hz:
/// a tone `s` semitones above C stands to A0 = 27.5 Hz as `2^(s/12)` to
/// `2^(9/12)`, to the nano-hertz. In twelfth powers, where the ratio is
/// rational: `f^12 * 2^9 <= A0^12 * 2^s < (f + 1)^12 * 2^9`.
pub proof fn lemma_equal_temperament(tone: Tone)
    ensures
        twelfth_power(tone.base_frequency()) * pow2(9) <= twelfth_power(
            Tone::A.base_frequency(),
        ) * pow2(tone.semitone() as nat),
        twelfth_power(Tone::A.base_frequency()) * pow2(tone.semitone() as nat) < twelfth_power(
            tone.base_frequency() + 1,
        ) * pow2(9),
        concert_pitch().frequency() == 440 * HERTZ,
{
    lemma2_to64();
    lemma_twelfth_bracket(tone.base_frequency(), pow2(tone.semitone() as nat) as int);
}

/// Whether `f^12 * 2^9 <= A0^12 * step < (f + 1)^12 * 2^9`.
spec fn twelfth_bracket(f: int, step: int) -> bool {
    twelfth_power(f) * 512 <= twelfth_power(27_500_000_000) * step < twelfth_power(f + 1) * 512
}

/// The bracket holds of each table entry; the solver multiplies it out.
#[verifier::nonlinear]
proof fn lemma_twelfth_bracket(f: int, step: int)
    requires
        (f == 16_351_597_831 && step == 1) || (f == 17_323_914_436 && step == 2) || (f
            == 18_354_047_994 && step == 4) || (f == 19_445_436_482 && step == 8) || (f
            == 20_601_722_307 && step == 16) || (f == 21_826_764_464 && step == 32) || (f
            == 23_124_651_419 && step == 64) || (f == 24_499_714_748 && step == 128) || (f
            == 25_956_543_598 && step == 256) || (f == 27_500_000_000 && step == 512) || (f
            == 29_135_235_094 && step == 1024) || (f == 30_867_706_328 && step == 2048),
    ensures
        twelfth_bracket(f, step),
{
}

} // verus!
