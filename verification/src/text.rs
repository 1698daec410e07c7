//! Decimal text for the numbers that the interface shows.

use vstd::prelude::*;
use vstd::string::StringExecFns;
use vstd::string::StrSliceExecFns;

verus! {

/// The character of one decimal digit.
pub open spec fn digit_char(d: int) -> char {
    if d == 0 {
        '0'
    } else if d == 1 {
        '1'
    } else if d == 2 {
        '2'
    } else if d == 3 {
        '3'
    } else if d == 4 {
        '4'
    } else if d == 5 {
        '5'
    } else if d == 6 {
        '6'
    } else if d == 7 {
        '7'
    } else if d == 8 {
        '8'
    } else {
        '9'
    }
}

/// `n` in decimal, most significant digit first, without leading zeros.
pub open spec fn decimal_text(n: nat) -> Seq<char>
    decreases n,
{
    if n < 10 {
        seq![digit_char(n as int)]
    } else {
        decimal_text(n / 10).push(digit_char((n % 10) as int))
    }
}

/// `n` in decimal, with a leading zero where it has one digit only.
pub open spec fn two_digit_text(n: nat) -> Seq<char> {
    if n < 10 {
        seq!['0', digit_char(n as int)]
    } else {
        decimal_text(n)
    }
}

/// The text of one decimal digit.
fn digit_str(d: u64) -> (text: &'static str)
    requires
        d < 10,
    ensures
        text@ == seq![digit_char(d as int)],
{
    proof {
        reveal_strlit("0");
        reveal_strlit("1");
        reveal_strlit("2");
        reveal_strlit("3");
        reveal_strlit("4");
        reveal_strlit("5");
        reveal_strlit("6");
        reveal_strlit("7");
        reveal_strlit("8");
        reveal_strlit("9");
    }
    let text: &'static str = if d == 0 {
        "0"
    } else if d == 1 {
        "1"
    } else if d == 2 {
        "2"
    } else if d == 3 {
        "3"
    } else if d == 4 {
        "4"
    } else if d == 5 {
        "5"
    } else if d == 6 {
        "6"
    } else if d == 7 {
        "7"
    } else if d == 8 {
        "8"
    } else {
        "9"
    };
    text
}

/// Appends `n` in decimal to `out`.
pub fn push_decimal(out: &mut String, n: u64)
    ensures
        final(out)@ == old(out)@ + decimal_text(n as nat),
    decreases n,
{
    if n >= 10 {
        push_decimal(out, n / 10);
    }
    out.append(digit_str(n % 10));
}

/// Appends `n` in decimal to `out`, two digits at least.
pub fn push_two_digits(out: &mut String, n: u64)
    ensures
        final(out)@ == old(out)@ + two_digit_text(n as nat),
{
    if n < 10 {
        out.append(digit_str(0));
    }
    push_decimal(out, n);
}

/// The three decimal digits of a number below a thousand, zeros in front.
pub open spec fn three_digit_text(n: nat) -> Seq<char> {
    seq![
        digit_char((n / 100) as int),
        digit_char((n / 10 % 10) as int),
        digit_char((n % 10) as int),
    ]
}

/// A count of thousandths as a decimal fraction with three places: `1500`
/// reads `1.500`.
pub open spec fn thousandths_text(n: nat) -> Seq<char> {
    decimal_text(n / 1000) + seq!['.'] + three_digit_text(n % 1000)
}

/// Appends a count of thousandths to `out`, as a decimal fraction with three
/// places.
pub fn push_thousandths(out: &mut String, n: u64)
    ensures
        final(out)@ == old(out)@ + thousandths_text(n as nat),
{
    let fraction: u64 = n % 1000;
    push_decimal(out, n / 1000);
    proof {
        reveal_strlit(".");
    }
    out.append(".");
    out.append(digit_str(fraction / 100));
    out.append(digit_str(fraction / 10 % 10));
    out.append(digit_str(fraction % 10));
}

/// `String::push`: appends one character to the end of the string.
pub assume_specification[ String::push ](s: &mut String, ch: char)
    ensures
        final(s)@ == old(s)@.push(ch),
;

/// Appends the characters `from..to` of `text` to `out`.
pub fn push_range(out: &mut String, text: &str, from: usize, to: usize)
    requires
        from <= to <= text@.len(),
    ensures
        final(out)@ == old(out)@ + text@.subrange(from as int, to as int),
{
    let mut i: usize = from;
    while i < to
        invariant
            from <= i <= to <= text@.len(),
            out@ == old(out)@ + text@.subrange(from as int, i as int),
        decreases to - i,
    {
        out.push(text.get_char(i));
        i += 1;
    }
}

/// `text` with `ch` put in before character `at`.
pub fn insert_char(text: &str, at: usize, ch: char) -> (out: String)
    requires
        at <= text@.len(),
    ensures
        out@ == text@.insert(at as int, ch),
{
    let len: usize = text.unicode_len();
    let mut out = String::new();
    push_range(&mut out, text, 0, at);
    out.push(ch);
    push_range(&mut out, text, at, len);
    out
}

/// `text` without character `at`.
pub fn remove_char(text: &str, at: usize) -> (out: String)
    requires
        at < text@.len(),
    ensures
        out@ == text@.remove(at as int),
{
    let len: usize = text.unicode_len();
    let mut out = String::new();
    push_range(&mut out, text, 0, at);
    push_range(&mut out, text, at + 1, len);
    out
}

/// Whether `text` begins with `prefix`.
pub open spec fn has_prefix(text: Seq<char>, prefix: Seq<char>) -> bool {
    prefix.len() <= text.len() && text.take(prefix.len() as int) == prefix
}

/// Whether `text` begins with `prefix`.
pub fn starts_with(text: &str, prefix: &str) -> (found: bool)
    ensures
        found == has_prefix(text@, prefix@),
{
    let len: usize = text.unicode_len();
    let n: usize = prefix.unicode_len();
    if n > len {
        return false;
    }
    let mut i: usize = 0;
    while i < n
        invariant
            i <= n <= len,
            n == prefix@.len(),
            len == text@.len(),
            forall|k: int| 0 <= k < i ==> text@[k] == prefix@[k],
        decreases n - i,
    {
        if text.get_char(i) != prefix.get_char(i) {
            return false;
        }
        i += 1;
    }
    assert(text@.take(n as int) =~= prefix@);
    true
}

/// Whether `c` is white space, as Unicode's `White_Space` property has it.
pub open spec fn is_white_space(c: char) -> bool {
    let code = c as u32;
    ||| 0x09 <= code <= 0x0d
    ||| code == 0x20
    ||| code == 0x85
    ||| code == 0xa0
    ||| code == 0x1680
    ||| 0x2000 <= code <= 0x200a
    ||| code == 0x2028
    ||| code == 0x2029
    ||| code == 0x202f
    ||| code == 0x205f
    ||| code == 0x3000
}

/// Whether `text` holds white space alone, or nothing.
pub open spec fn blank(text: Seq<char>) -> bool {
    forall|i: int| 0 <= i < text.len() ==> is_white_space(#[trigger] text[i])
}

/// Whether `text` holds white space alone, or nothing.
pub fn is_blank(text: &str) -> (all: bool)
    ensures
        all == blank(text@),
{
    let len: usize = text.unicode_len();
    let mut i: usize = 0;
    while i < len
        invariant
            i <= len == text@.len(),
            forall|k: int| 0 <= k < i ==> is_white_space(#[trigger] text@[k]),
        decreases len - i,
    {
        let code: u32 = text.get_char(i) as u32;
        let space: bool = (0x09 <= code && code <= 0x0d) || code == 0x20 || code == 0x85 || code
            == 0xa0 || code == 0x1680 || (0x2000 <= code && code <= 0x200a) || code == 0x2028
            || code == 0x2029 || code == 0x202f || code == 0x205f || code == 0x3000;
        if !space {
            return false;
        }
        i += 1;
    }
    true
}

/// `head` followed by `tail`.
pub fn joined(head: &str, tail: &str) -> (out: String)
    ensures
        out@ == head@ + tail@,
{
    let mut out = String::from_str(head);
    out.append(tail);
    out
}

/// A whole number in decimal, with a minus sign where it is negative.
pub open spec fn signed_text(n: int) -> Seq<char> {
    if n < 0 {
        seq!['-'] + decimal_text((-n) as nat)
    } else {
        decimal_text(n as nat)
    }
}

/// Appends a whole number in decimal to `out`.
pub fn push_signed(out: &mut String, n: i64)
    ensures
        final(out)@ == old(out)@ + signed_text(n as int),
{
    if n < 0 {
        proof {
            reveal_strlit("-");
        }
        out.append("-");
        let magnitude: u64 = if n == i64::MIN {
            0x8000_0000_0000_0000
        } else {
            (-n) as u64
        };
        push_decimal(out, magnitude);
    } else {
        push_decimal(out, n as u64);
    }
}

} // verus!
