//! Base-10 text of signed 32-bit integers, as it travels on the wire.

use vstd::prelude::*;

verus! {

/// The byte of the minus sign.
pub const MINUS: u8 = 45;

/// The byte of the plus sign.
pub const PLUS: u8 = 43;

/// The byte of the digit zero.
pub const ZERO: u8 = 48;

/// The byte of the digit nine.
pub const NINE: u8 = 57;

/// The largest magnitude of a signed 32-bit integer, that of the smallest one.
const MAX_MAGNITUDE: i64 = 2147483648;

/// Whether a byte is one of the ten decimal digits.
pub open spec fn is_digit(b: u8) -> bool {
    48 <= b <= 57
}

/// Whether a text holds decimal digits and nothing else.
pub open spec fn all_digits(s: Seq<u8>) -> bool {
    forall|i: int| 0 <= i < s.len() ==> is_digit(#[trigger] s[i])
}

/// The digits of a natural number, most significant first, with no leading
/// zero: a single `0` for zero.
pub open spec fn digits_of(n: nat) -> Seq<u8>
    decreases n,
{
    if n < 10 {
        seq![(48 + n) as u8]
    } else {
        digits_of(n / 10).push((48 + n % 10) as u8)
    }
}

/// The number that a text of digits denotes. Leading zeros do not count, and
/// the empty text denotes zero.
pub open spec fn digits_value(s: Seq<u8>) -> nat
    decreases s.len(),
{
    if s.len() == 0 {
        0
    } else {
        digits_value(s.drop_last()) * 10 + (s.last() - 48) as nat
    }
}

/// The text of an integer: a minus sign if it is negative, then the digits of
/// its magnitude.
pub open spec fn decimal_text(v: int) -> Seq<u8> {
    if v < 0 {
        seq![45u8] + digits_of((-v) as nat)
    } else {
        digits_of(v as nat)
    }
}

/// The digits of a text after its optional sign.
pub open spec fn unsigned_part(s: Seq<u8>) -> Seq<u8> {
    if s.len() > 0 && (s[0] == 45 || s[0] == 43) {
        s.skip(1)
    } else {
        s
    }
}

/// The integer that a text denotes, if it denotes one that a signed 32-bit
/// integer can hold: an optional `+` or `-`, then at least one digit and
/// nothing but digits.
pub open spec fn parse_decimal(s: Seq<u8>) -> Option<i32> {
    let digits = unsigned_part(s);
    let magnitude = digits_value(digits) as int;
    let value = if s.len() > 0 && s[0] == 45 {
        -magnitude
    } else {
        magnitude
    };
    if digits.len() > 0 && all_digits(digits) && i32::MIN <= value <= i32::MAX {
        Some(value as i32)
    } else {
        None
    }
}

/// A number is the value of its own digits, which are at least one, all
/// digits, and as many as the number needs.
pub proof fn digits_of_denotes(n: nat)
    ensures
        digits_of(n).len() >= 1,
        all_digits(digits_of(n)),
        digits_value(digits_of(n)) == n,
        n >= 10 ==> digits_of(n)[0] != 48,
    decreases n,
{
    if n < 10 {
        assert(digits_value(digits_of(n).drop_last()) == 0);
    } else {
        digits_of_denotes(n / 10);
        assert(digits_of(n).drop_last() =~= digits_of(n / 10));
    }
}

/// Digits appended to a text can only make the number it denotes larger.
pub proof fn digits_value_grows(s: Seq<u8>, k: int)
    requires
        0 <= k <= s.len(),
        all_digits(s),
    ensures
        digits_value(s.take(k)) <= digits_value(s),
    decreases s.len() - k,
{
    if k == s.len() {
        assert(s.take(k) =~= s);
    } else {
        digits_value_grows(s.drop_last(), k);
        assert(s.drop_last().take(k) =~= s.take(k));
    }
}

/// Reading back the text of a 32-bit integer gives that integer.
pub proof fn decimal_round_trip(v: i32)
    ensures
        parse_decimal(decimal_text(v as int)) == Some(v),
{
    if v < 0 {
        let n = (-(v as int)) as nat;
        digits_of_denotes(n);
        assert(decimal_text(v as int).skip(1) =~= digits_of(n));
    } else {
        digits_of_denotes(v as nat);
    }
}

/// The text of an integer holds a sign or digits only, so never a line break.
pub proof fn decimal_text_has_no_line_break(v: int)
    ensures
        decimal_text(v).len() >= 1,
        forall|i: int| 0 <= i < decimal_text(v).len() ==> #[trigger] decimal_text(v)[i] != 10,
{
    if v < 0 {
        digits_of_denotes((-v) as nat);
        assert forall|i: int| 0 <= i < decimal_text(v).len() implies #[trigger] decimal_text(
            v,
        )[i] != 10 by {}
    } else {
        digits_of_denotes(v as nat);
    }
}

/// Appends the digits of `n` to `out`.
fn push_digits(n: u32, out: &mut Vec<u8>)
    ensures
        final(out)@ == old(out)@ + digits_of(n as nat),
    decreases n,
{
    if n >= 10 {
        push_digits(n / 10, out);
    }
    let digit: u8 = (n % 10) as u8;
    out.push(ZERO + digit);
}

/// Writes an integer as text: `-` for a negative one, then its digits.
pub fn format_decimal(v: i32) -> (text: Vec<u8>)
    ensures
        text@ == decimal_text(v as int),
{
    let mut text: Vec<u8> = Vec::new();
    if v < 0 {
        text.push(MINUS);
        let magnitude: u32 = (-(v as i64)) as u32;
        push_digits(magnitude, &mut text);
    } else {
        push_digits(v as u32, &mut text);
    }
    text
}

/// Reads a text as an integer. The answer is `None` for the empty text, a lone
/// sign, a byte that is no digit, and a number outside the 32-bit range.
pub fn read_decimal(line: &[u8]) -> (value: Option<i32>)
    ensures
        value == parse_decimal(line@),
{
    let n: usize = line.len();
    if n == 0 {
        return None;
    }
    let first: u8 = line[0];
    let negative: bool = first == MINUS;
    let start: usize = if first == MINUS || first == PLUS {
        1
    } else {
        0
    };
    if start == n {
        return None;
    }
    let ghost digits = unsigned_part(line@);
    let mut magnitude: i64 = 0;
    let mut i: usize = start;
    while i < n
        invariant
            start <= i <= n,
            n == line@.len(),
            n > 0,
            negative == (line@[0] == 45),
            digits == unsigned_part(line@),
            digits.len() == n - start,
            forall|k: int| 0 <= k < n - start ==> digits[k] == line@[start + k],
            all_digits(digits.take(i - start)),
            magnitude == digits_value(digits.take(i - start)),
            0 <= magnitude <= MAX_MAGNITUDE,
        decreases n - i,
    {
        let b: u8 = line[i];
        if b < ZERO || b > NINE {
            assert(digits[i - start] == b);
            return None;
        }
        let ghost shorter = digits.take(i - start);
        let ghost longer = digits.take(i - start + 1);
        assert(longer.drop_last() =~= shorter);
        magnitude = magnitude * 10 + (b - ZERO) as i64;
        assert(all_digits(longer)) by {
            assert forall|k: int| 0 <= k < longer.len() implies is_digit(#[trigger] longer[k]) by {
                if k < shorter.len() {
                    assert(longer[k] == shorter[k]);
                }
            }
        }
        if magnitude > MAX_MAGNITUDE {
            proof {
                if all_digits(digits) {
                    digits_value_grows(digits, i - start + 1);
                }
            }
            return None;
        }
        i = i + 1;
    }
    assert(digits.take(n - start) =~= digits);
    if negative {
        Some((-magnitude) as i32)
    } else if magnitude < MAX_MAGNITUDE {
        Some(magnitude as i32)
    } else {
        None
    }
}

} // verus!
