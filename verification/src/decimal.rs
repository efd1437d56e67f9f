//! Decimal numerals: how integers are written on the wire, and how the
//! server's clock reading is read back.

use vstd::prelude::*;
use vstd::string::*;
use vstd::utf8::*;

verus! {

/// The byte of the character `+`.
const PLUS: u8 = 43;

/// The byte of the character `-`.
const MINUS: u8 = 45;

/// The byte of the character `0`.
const ZERO: u8 = 48;

/// The byte of the character `9`.
const NINE: u8 = 57;

/// The character for a single decimal digit.
pub open spec fn digit_char(d: nat) -> char {
    if d == 0 {
        '0'
    } else if d == 1 {
        '1'
    } else if d == 2 {
        '2'
    } else if d == 3 {
        '3'
    } else if d == 4 {
        '4'
    } else if d == 5 {
        '5'
    } else if d == 6 {
        '6'
    } else if d == 7 {
        '7'
    } else if d == 8 {
        '8'
    } else {
        '9'
    }
}

/// The decimal numeral of a natural number, without leading zeros.
pub open spec fn decimal(n: nat) -> Seq<char>
    decreases n,
{
    if n < 10 {
        seq![digit_char(n)]
    } else {
        decimal(n / 10).push(digit_char(n % 10))
    }
}

/// The decimal numeral of an integer: a minus sign in front of a negative one.
pub open spec fn signed_decimal(i: int) -> Seq<char> {
    if i < 0 {
        seq!['-'] + decimal((-i) as nat)
    } else {
        decimal(i as nat)
    }
}

/// Whether a character is one of `0` to `9`.
pub open spec fn is_digit(c: char) -> bool {
    '0' <= c <= '9'
}

/// The number that a digit character stands for.
pub open spec fn digit_value(c: char) -> nat {
    (c as u32 - '0' as u32) as nat
}

/// Whether every character of a sequence is a decimal digit.
pub open spec fn all_digits(s: Seq<char>) -> bool {
    forall|i: int| 0 <= i < s.len() ==> is_digit(#[trigger] s[i])
}

/// The number that a sequence of decimal digits stands for; the empty
/// sequence stands for zero.
pub open spec fn decimal_value(s: Seq<char>) -> nat
    decreases s.len(),
{
    if s.len() == 0 {
        0
    } else {
        decimal_value(s.drop_last()) * 10 + digit_value(s.last())
    }
}

/// The digits of an unsigned numeral: the text without one leading `+`.
pub open spec fn numeral_digits(s: Seq<char>) -> Seq<char> {
    if s.len() > 0 && s[0] == '+' {
        s.subrange(1, s.len() as int)
    } else {
        s
    }
}

/// The number that a run of digits stands for: `None` for the empty run,
/// for a run that holds anything but digits, and for a number above
/// `u64::MAX`.
pub open spec fn spec_digits_u64(d: Seq<char>) -> Option<u64> {
    if d.len() > 0 && all_digits(d) && decimal_value(d) <= u64::MAX {
        Some(decimal_value(d) as u64)
    } else {
        None
    }
}

/// What a text reads as, taken as an unsigned 64-bit decimal numeral: an
/// optional `+`, then one or more digits and nothing else, the number no
/// larger than `u64::MAX`.
pub open spec fn spec_parse_u64(s: Seq<char>) -> Option<u64> {
    spec_digits_u64(numeral_digits(s))
}

/// What a text reads as, taken as a signed 64-bit decimal numeral: an
/// optional `+` or `-`, then one or more digits and nothing else, the
/// number within the range of an `i64`.
pub open spec fn spec_parse_i64(s: Seq<char>) -> Option<i64> {
    if s.len() > 0 && s[0] == '-' {
        match spec_digits_u64(s.subrange(1, s.len() as int)) {
            Some(magnitude) => if magnitude <= 0x8000_0000_0000_0000u64 {
                Some((-magnitude) as i64)
            } else {
                None
            },
            None => None,
        }
    } else {
        match spec_parse_u64(s) {
            Some(value) => if value <= i64::MAX {
                Some(value as i64)
            } else {
                None
            },
            None => None,
        }
    }
}

/// What a text reads as, taken as a signed 32-bit decimal numeral.
pub open spec fn spec_parse_i32(s: Seq<char>) -> Option<i32> {
    match spec_parse_i64(s) {
        Some(value) => if i32::MIN <= value <= i32::MAX {
            Some(value as i32)
        } else {
            None
        },
        None => None,
    }
}

fn digit_str(d: u64) -> (s: &'static str)
    requires
        d < 10,
    ensures
        s@ == seq![digit_char(d as nat)],
{
    proof {
        reveal_strlit("0");
        reveal_strlit("1");
        reveal_strlit("2");
        reveal_strlit("3");
        reveal_strlit("4");
        reveal_strlit("5");
        reveal_strlit("6");
        reveal_strlit("7");
        reveal_strlit("8");
        reveal_strlit("9");
    }
    let s = if d == 0 {
        "0"
    } else if d == 1 {
        "1"
    } else if d == 2 {
        "2"
    } else if d == 3 {
        "3"
    } else if d == 4 {
        "4"
    } else if d == 5 {
        "5"
    } else if d == 6 {
        "6"
    } else if d == 7 {
        "7"
    } else if d == 8 {
        "8"
    } else {
        "9"
    };
    assert(s@ =~= seq![digit_char(d as nat)]);
    s
}

/// Appends the decimal numeral of `n` to `out`.
pub fn push_decimal(out: &mut String, n: u64)
    ensures
        final(out)@ == old(out)@ + decimal(n as nat),
    decreases n,
{
    if n >= 10 {
        push_decimal(out, n / 10);
    }
    out.append(digit_str(n % 10));
    proof {
        let before = old(out)@;
        if n >= 10 {
            assert(final(out)@ =~= before + decimal((n / 10) as nat).push(
                digit_char((n % 10) as nat),
            ));
        } else {
            assert(final(out)@ =~= before + seq![digit_char(n as nat)]);
        }
    }
}

/// The decimal numeral of `n`.
pub fn u64_to_string(n: u64) -> (s: String)
    ensures
        s@ == decimal(n as nat),
{
    let mut s = String::new();
    push_decimal(&mut s, n);
    assert(s@ =~= decimal(n as nat));
    s
}

/// Appends the decimal numeral of `i` to `out`, with a minus sign where it
/// is negative.
pub fn push_signed_decimal(out: &mut String, i: i64)
    ensures
        final(out)@ == old(out)@ + signed_decimal(i as int),
{
    if i < 0 {
        proof {
            reveal_strlit("-");
        }
        out.append("-");
        let magnitude: u64 = ((-(i + 1)) as u64) + 1;
        push_decimal(out, magnitude);
        assert(final(out)@ =~= old(out)@ + signed_decimal(i as int));
    } else {
        push_decimal(out, i as u64);
    }
}

/// The decimal numeral of `i`, with a minus sign where it is negative.
pub fn i64_to_string(i: i64) -> (s: String)
    ensures
        s@ == signed_decimal(i as int),
{
    let mut s = String::new();
    push_signed_decimal(&mut s, i);
    assert(s@ =~= signed_decimal(i as int));
    s
}

/// A numeral's value does not shrink when digits follow it.
proof fn lemma_value_grows(s: Seq<char>, k: int)
    requires
        0 <= k <= s.len(),
    ensures
        decimal_value(s.subrange(0, k)) <= decimal_value(s),
    decreases s.len() - k,
{
    if k == s.len() {
        assert(s.subrange(0, k) =~= s);
    } else {
        lemma_value_grows(s, k + 1);
        let longer = s.subrange(0, k + 1);
        assert(longer.drop_last() =~= s.subrange(0, k));
    }
}

/// A text whose characters, but for the first `k`, are all digits, and
/// whose first `k` characters are ASCII, is ASCII.
proof fn lemma_digits_are_ascii(s: Seq<char>, k: int)
    requires
        0 <= k <= s.len(),
        all_digits(s.subrange(k, s.len() as int)),
        forall|i: int| 0 <= i < k ==> '\0' <= #[trigger] s[i] <= '\u{7f}',
    ensures
        is_ascii_chars(s),
{
    let d = s.subrange(k, s.len() as int);
    assert forall|i: int| 0 <= i < s.len() implies '\0' <= #[trigger] s[i] <= '\u{7f}' by {
        if i >= k {
            assert(is_digit(d[i - k]));
        }
    }
}

/// Reads the digits of an ASCII text from position `start` to its end.
fn digits_from(s: &str, start: usize) -> (r: Option<u64>)
    requires
        is_ascii_chars(s@),
        start <= s@.len(),
    ensures
        r == spec_digits_u64(s@.subrange(start as int, s@.len() as int)),
{
    let bytes = s.as_bytes();
    proof {
        is_ascii_chars_encode_utf8(s@);
    }
    let n: usize = bytes.len();
    let ghost d = s@.subrange(start as int, n as int);
    if start == n {
        return None;
    }
    let mut value: u64 = 0;
    let mut i: usize = start;
    while i < n
        invariant
            start <= i <= n,
            n == s@.len(),
            n == bytes@.len(),
            d == s@.subrange(start as int, n as int),
            forall|j: int| 0 <= j < n ==> s@[j] as u8 == #[trigger] bytes@[j],
            forall|j: int| 0 <= j < n ==> '\0' <= #[trigger] s@[j] <= '\u{7f}',
            all_digits(d.subrange(0, i - start)),
            value == decimal_value(d.subrange(0, i - start)),
        decreases n - i,
    {
        let b: u8 = bytes[i];
        let ghost c = s@[i as int];
        assert(c == d[i - start]);
        assert(c as u8 == b);
        assert('\0' <= c <= '\u{7f}');
        if b < ZERO || b > NINE {
            assert(!is_digit(c));
            return None;
        }
        assert(is_digit(c));
        let digit: u64 = (b - ZERO) as u64;
        assert(digit == digit_value(c));
        let ghost longer = d.subrange(0, i - start + 1);
        proof {
            assert(longer.drop_last() =~= d.subrange(0, i - start));
            assert(longer.last() == c);
            lemma_value_grows(d, i - start + 1);
        }
        if value > (u64::MAX - digit) / 10 {
            assert(decimal_value(longer) > u64::MAX);
            return None;
        }
        value = value * 10 + digit;
        i += 1;
        proof {
            assert forall|j: int| 0 <= j < longer.len() implies is_digit(#[trigger] longer[j]) by {
                if j < longer.len() - 1 {
                    assert(longer[j] == d.subrange(0, i - start - 1)[j]);
                }
            }
        }
    }
    assert(d.subrange(0, n - start) =~= d);
    Some(value)
}

/// Reads an unsigned 64-bit decimal numeral, as the server sends its clock:
/// an optional `+`, then digits only. `None` for any other text and for a
/// number above `u64::MAX`.
pub fn parse_u64(s: &str) -> (r: Option<u64>)
    ensures
        r == spec_parse_u64(s@),
{
    if !s.is_ascii() {
        proof {
            let d = numeral_digits(s@);
            if d.len() > 0 && all_digits(d) {
                if s@[0] == '+' {
                    lemma_digits_are_ascii(s@, 1);
                } else {
                    assert(s@.subrange(0, s@.len() as int) =~= s@);
                    lemma_digits_are_ascii(s@, 0);
                }
            }
        }
        return None;
    }
    let bytes = s.as_bytes();
    proof {
        is_ascii_chars_encode_utf8(s@);
    }
    if bytes.len() > 0 && bytes[0] == PLUS {
        digits_from(s, 1)
    } else {
        assert(s@.subrange(0, s@.len() as int) =~= s@);
        digits_from(s, 0)
    }
}

/// Reads a signed 64-bit decimal numeral: an optional `+` or `-`, then
/// digits only. `None` for any other text and for a number that no `i64`
/// holds.
pub fn parse_i64(s: &str) -> (r: Option<i64>)
    ensures
        r == spec_parse_i64(s@),
{
    if !s.is_ascii() {
        proof {
            if s@.len() > 0 && s@[0] == '-' {
                if spec_digits_u64(s@.subrange(1, s@.len() as int)) is Some {
                    lemma_digits_are_ascii(s@, 1);
                }
            } else {
                let d = numeral_digits(s@);
                if d.len() > 0 && all_digits(d) {
                    if s@[0] == '+' {
                        lemma_digits_are_ascii(s@, 1);
                    } else {
                        assert(s@.subrange(0, s@.len() as int) =~= s@);
                        lemma_digits_are_ascii(s@, 0);
                    }
                }
            }
        }
        return None;
    }
    let bytes = s.as_bytes();
    proof {
        is_ascii_chars_encode_utf8(s@);
    }
    if bytes.len() > 0 && bytes[0] == MINUS {
        match digits_from(s, 1) {
            None => None,
            Some(magnitude) => {
                if magnitude > 0x8000_0000_0000_0000u64 {
                    None
                } else if magnitude == 0x8000_0000_0000_0000u64 {
                    Some(i64::MIN)
                } else {
                    Some(-(magnitude as i64))
                }
            },
        }
    } else {
        match parse_u64(s) {
            None => None,
            Some(value) => {
                if value > i64::MAX as u64 {
                    None
                } else {
                    Some(value as i64)
                }
            },
        }
    }
}

/// Reads a signed 32-bit decimal numeral: an optional `+` or `-`, then
/// digits only. `None` for any other text and for a number that no `i32`
/// holds.
pub fn parse_i32(s: &str) -> (r: Option<i32>)
    ensures
        r == spec_parse_i32(s@),
{
    match parse_i64(s) {
        None => None,
        Some(value) => {
            if value < i32::MIN as i64 || value > i32::MAX as i64 {
                None
            } else {
                Some(value as i32)
            }
        },
    }
}

/// The numeral of a number is made of digits, and stands for that number.
pub proof fn lemma_decimal_value(n: nat)
    ensures
        decimal(n).len() > 0,
        all_digits(decimal(n)),
        decimal_value(decimal(n)) == n,
        decimal(n)[0] != '+',
    decreases n,
{
    if n < 10 {
        let s = decimal(n);
        assert(s.drop_last() =~= Seq::<char>::empty());
        assert(decimal_value(s.drop_last()) == 0);
    } else {
        lemma_decimal_value(n / 10);
        let shorter = decimal(n / 10);
        let s = decimal(n);
        assert(s.drop_last() =~= shorter);
        assert(s.last() == digit_char(n % 10));
        assert forall|i: int| 0 <= i < s.len() implies is_digit(#[trigger] s[i]) by {
            if i < shorter.len() {
                assert(s[i] == shorter[i]);
            }
        }
    }
}

/// What was written is read back: the numeral of a number of 64 bits reads
/// as that number.
pub proof fn lemma_written_is_read_back(n: u64)
    ensures
        spec_parse_u64(decimal(n as nat)) == Some(n),
{
    lemma_decimal_value(n as nat);
}

} // verus!
