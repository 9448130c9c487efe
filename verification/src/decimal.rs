//! Decimal text of 32-bit integers: reading a key out of a text field and
//! writing one into a line of output.
//!
//! The grammar is the one of `i32`'s `FromStr`: an optional sign (`+` or `-`),
//! then at least one ASCII digit, and a value that fits. The text written for
//! a number is the one of its `Display`: a `-` for negatives, no leading
//! zeros.

use vstd::prelude::*;

verus! {

/// Whether `c` is one of the ten ASCII digits.
pub open spec fn is_digit(c: char) -> bool {
    '0' <= c && c <= '9'
}

/// The value of the digit `c`.
pub open spec fn digit_value(c: char) -> int {
    c as int - '0' as int
}

/// The digit that writes `d`, for `0 <= d <= 9`.
pub open spec fn digit_char(d: int) -> char {
    (d + '0' as int) as char
}

/// Whether every character of `s` is a digit.
pub open spec fn all_digits(s: Seq<char>) -> bool {
    forall|i: int| 0 <= i < s.len() ==> is_digit(#[trigger] s[i])
}

/// The number that a run of digits denotes, most significant digit first.
pub open spec fn digits_value(digits: Seq<char>) -> int
    decreases digits.len(),
{
    if digits.len() == 0 {
        0
    } else {
        10 * digits_value(digits.drop_last()) + digit_value(digits.last())
    }
}

/// Where the digits of `text` begin: behind a leading sign, if there is one.
pub open spec fn digits_start(text: Seq<char>) -> int {
    if text.len() > 0 && (text[0] == '-' || text[0] == '+') {
        1
    } else {
        0
    }
}

/// The number that `text` denotes, sign included, whatever its size.
/// Meaningful where `text` is a sign or nothing followed by digits.
pub open spec fn signed_value(text: Seq<char>) -> int {
    let magnitude = digits_value(text.subrange(digits_start(text), text.len() as int));
    if text.len() > 0 && text[0] == '-' {
        -magnitude
    } else {
        magnitude
    }
}

/// Whether `text` is an optional sign followed by at least one digit and
/// nothing else.
pub open spec fn is_decimal(text: Seq<char>) -> bool {
    let digits = text.subrange(digits_start(text), text.len() as int);
    digits.len() > 0 && all_digits(digits)
}

/// What `text` is read as: its number where it is a decimal that fits in an
/// `i32`, and nothing otherwise.
pub open spec fn parsed_i32(text: Seq<char>) -> Option<i32> {
    if is_decimal(text) && i32::MIN <= signed_value(text) <= i32::MAX {
        Some(signed_value(text) as i32)
    } else {
        None
    }
}

/// The digits of a natural number, without leading zeros.
pub open spec fn natural_text(n: nat) -> Seq<char>
    decreases n,
{
    if n < 10 {
        seq![digit_char(n as int)]
    } else {
        natural_text(n / 10).push(digit_char((n % 10) as int))
    }
}

/// The text of an integer: a `-` in front of the digits of a negative one.
pub open spec fn integer_text(v: int) -> Seq<char> {
    if v < 0 {
        seq!['-'] + natural_text((-v) as nat)
    } else {
        natural_text(v as nat)
    }
}

/// A run of digits extended by one digit denotes ten times as much, plus
/// the digit.
proof fn lemma_digits_value_step(text: Seq<char>, start: int, i: int)
    requires
        0 <= start <= i < text.len(),
    ensures
        digits_value(text.subrange(start, i + 1)) == 10 * digits_value(text.subrange(start, i))
            + digit_value(text[i]),
{
    let longer = text.subrange(start, i + 1);
    assert(longer.drop_last() =~= text.subrange(start, i));
    assert(longer.last() == text[i]);
}

/// Text with a character outside ASCII is no decimal.
proof fn lemma_beyond_ascii_is_no_decimal(text: Seq<char>)
    requires
        !vstd::utf8::is_ascii_chars(text),
    ensures
        !is_decimal(text),
{
    let k = choose|k: int| 0 <= k < text.len() && !('\0' <= #[trigger] text[k] <= '\u{7f}');
    let start = digits_start(text);
    let digits = text.subrange(start, text.len() as int);
    if k >= start {
        assert(digits[k - start] == text[k]);
        assert(!is_digit(digits[k - start]));
    }
}

/// Reads a decimal number: `Some` of it where `text` is an optional sign and
/// then digits that denote an `i32`, `None` for any other text (empty, a bare
/// sign, a blank or a letter anywhere, a number out of range).
pub fn parse_i32(text: &str) -> (res: Option<i32>)
    ensures
        res == parsed_i32(text@),
{
    if !text.is_ascii() {
        proof {
            lemma_beyond_ascii_is_no_decimal(text@);
        }
        return None;
    }
    let bytes = text.as_bytes();
    let n = bytes.len();
    proof {
        vstd::string::is_ascii_spec_bytes(text);
    }
    if n == 0 {
        return None;
    }
    let first = bytes[0];
    let negative = first == 45u8;
    let start: usize = if first == 45u8 || first == 43u8 {
        1
    } else {
        0
    };
    assert(start == digits_start(text@));
    if start == n {
        return None;
    }
    let mut magnitude: i64 = 0;
    let mut too_large = false;
    let mut i: usize = start;
    while i < n
        invariant
            start <= i <= n,
            start == digits_start(text@),
            n == text@.len(),
            vstd::utf8::is_ascii_chars(text@),
            bytes@ == Seq::new(text@.len(), |k: int| text@[k] as u8),
            all_digits(text@.subrange(start as int, i as int)),
            !too_large ==> 0 <= magnitude <= 2147483648 && magnitude == digits_value(
                text@.subrange(start as int, i as int),
            ),
            too_large ==> digits_value(text@.subrange(start as int, i as int)) > 2147483648,
        decreases n - i,
    {
        let b = bytes[i];
        assert(b == text@[i as int] as u8);
        if b < 48u8 || b > 57u8 {
            proof {
                let digits = text@.subrange(start as int, n as int);
                assert(digits[i - start] == text@[i as int]);
                assert(!is_digit(digits[i - start]));
            }
            return None;
        }
        proof {
            lemma_digits_value_step(text@, start as int, i as int);
            assert(is_digit(text@[i as int]));
            assert(digit_value(text@[i as int]) == b - 48);
            let before = text@.subrange(start as int, i as int);
            let after = text@.subrange(start as int, i + 1);
            assert forall|k: int| 0 <= k < after.len() implies is_digit(#[trigger] after[k]) by {
                if k < before.len() {
                    assert(after[k] == before[k]);
                }
            }
        }
        if !too_large {
            magnitude = magnitude * 10 + (b - 48u8) as i64;
            if magnitude > 2147483648 {
                too_large = true;
            }
        }
        i += 1;
    }
    if too_large {
        None
    } else if negative {
        Some((-magnitude) as i32)
    } else if magnitude > 2147483647 {
        None
    } else {
        Some(magnitude as i32)
    }
}

/// The one-character text of a digit.
fn digit_text(d: u32) -> (s: &'static str)
    requires
        d < 10,
    ensures
        s@ == seq![digit_char(d as int)],
{
    proof {
        reveal_strlit("0");
        reveal_strlit("1");
        reveal_strlit("2");
        reveal_strlit("3");
        reveal_strlit("4");
        reveal_strlit("5");
        reveal_strlit("6");
        reveal_strlit("7");
        reveal_strlit("8");
        reveal_strlit("9");
    }
    let s = if d == 0 {
        "0"
    } else if d == 1 {
        "1"
    } else if d == 2 {
        "2"
    } else if d == 3 {
        "3"
    } else if d == 4 {
        "4"
    } else if d == 5 {
        "5"
    } else if d == 6 {
        "6"
    } else if d == 7 {
        "7"
    } else if d == 8 {
        "8"
    } else {
        "9"
    };
    assert(s@ =~= seq![digit_char(d as int)]);
    s
}

/// Appends the digits of `n` to `out`.
fn push_natural(out: &mut String, n: u32)
    ensures
        final(out)@ == old(out)@ + natural_text(n as nat),
    decreases n,
{
    if n >= 10 {
        push_natural(out, n / 10);
    }
    out.append(digit_text(n % 10));
    assert(final(out)@ =~= old(out)@ + natural_text(n as nat));
}

/// Appends the text of `v` to `out`.
pub fn push_i32(out: &mut String, v: i32)
    ensures
        final(out)@ == old(out)@ + integer_text(v as int),
{
    if v < 0 {
        proof {
            reveal_strlit("-");
        }
        out.append("-");
        push_natural(out, (-(v as i64)) as u32);
    } else {
        push_natural(out, v as u32);
    }
    assert(final(out)@ =~= old(out)@ + integer_text(v as int));
}

/// Writes `v` in decimal: `0`, `42`, `-7`.
pub fn format_i32(v: i32) -> (s: String)
    ensures
        s@ == integer_text(v as int),
{
    let mut out = String::new();
    push_i32(&mut out, v);
    assert(out@ =~= integer_text(v as int));
    out
}

/// The digits written for a natural number are digits, at least one of them,
/// and denote that number.
pub proof fn lemma_natural_text_denotes(n: nat)
    ensures
        natural_text(n).len() > 0,
        all_digits(natural_text(n)),
        digits_value(natural_text(n)) == n,
    decreases n,
{
    let text = natural_text(n);
    if n < 10 {
        assert(text.drop_last() =~= Seq::<char>::empty());
        assert(digits_value(text.drop_last()) == 0);
    } else {
        lemma_natural_text_denotes(n / 10);
        let head = natural_text(n / 10);
        assert(text.drop_last() =~= head);
        assert(text.last() == digit_char((n % 10) as int));
        assert forall|k: int| 0 <= k < text.len() implies is_digit(#[trigger] text[k]) by {
            if k < head.len() {
                assert(text[k] == head[k]);
            }
        }
    }
}

/// Reading undoes writing: the text written for an `i32` is read back as that
/// same number.
pub proof fn lemma_parse_inverts_format(v: i32)
    ensures
        parsed_i32(integer_text(v as int)) == Some(v),
{
    let text = integer_text(v as int);
    if v < 0 {
        let digits = natural_text((-v) as nat);
        lemma_natural_text_denotes((-v) as nat);
        assert(text[0] == '-');
        assert(text.subrange(1, text.len() as int) =~= digits);
    } else {
        lemma_natural_text_denotes(v as nat);
        assert(is_digit(text[0]));
        assert(text.subrange(0, text.len() as int) =~= text);
    }
}

} // verus!
