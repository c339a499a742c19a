//! Facts about `str`, `String` and `char` that std documents and vstd leaves
//! open, and the decimal and hexadecimal renderings the library builds text from.
use vstd::prelude::*;

verus! {

/// `str`'s `==`: true exactly when both slices hold the same characters.
pub assume_specification[ <str as PartialEq>::eq ](a: &str, b: &str) -> (res: bool)
    ensures
        res == (a@ == b@),
;

/// `String::push` appends one character at the end.
pub assume_specification[ String::push ](s: &mut String, ch: char)
    ensures
        final(s)@ == old(s)@.push(ch),
;

/// `String::push_str` appends the characters of a slice at the end.
pub assume_specification[ String::push_str ](s: &mut String, other: &str)
    ensures
        final(s)@ == old(s)@ + other@,
;

/// Unicode's `White_Space` property, which `char::is_whitespace` reports.
pub open spec fn unicode_white_space(c: char) -> bool {
    ||| '\u{9}' <= c <= '\u{d}'
    ||| c == ' '
    ||| c == '\u{85}'
    ||| c == '\u{a0}'
    ||| c == '\u{1680}'
    ||| '\u{2000}' <= c <= '\u{200a}'
    ||| c == '\u{2028}'
    ||| c == '\u{2029}'
    ||| c == '\u{202f}'
    ||| c == '\u{205f}'
    ||| c == '\u{3000}'
}

/// `char::is_whitespace` reports the `White_Space` property.
pub assume_specification[ char::is_whitespace ](c: char) -> (res: bool)
    ensures
        res == unicode_white_space(c),
;

/// The character of a decimal digit.
pub open spec fn digit_char(d: int) -> char
    recommends
        0 <= d < 10,
{
    (48 + d) as char
}

/// The decimal rendering of a natural number, without sign or leading zeros.
pub open spec fn decimal(n: nat) -> Seq<char>
    decreases n,
{
    if n < 10 {
        seq![digit_char(n as int)]
    } else {
        decimal(n / 10).push(digit_char((n % 10) as int))
    }
}

/// Appends the decimal rendering of `n`.
pub fn push_decimal(s: &mut String, n: u64)
    ensures
        final(s)@ == old(s)@ + decimal(n as nat),
    decreases n,
{
    if n >= 10 {
        push_decimal(s, n / 10);
    }
    let d: u8 = (n % 10) as u8;
    s.push((48u8 + d) as char);
    assert(final(s)@ =~= old(s)@ + decimal(n as nat));
}

/// An upper-case hexadecimal digit.
pub open spec fn hex_upper_digit(d: int) -> char
    recommends
        0 <= d < 16,
{
    if d < 10 {
        (48 + d) as char
    } else {
        (55 + d) as char
    }
}

/// A lower-case hexadecimal digit.
pub open spec fn hex_lower_digit(d: int) -> char
    recommends
        0 <= d < 16,
{
    if d < 10 {
        (48 + d) as char
    } else {
        (87 + d) as char
    }
}

/// The two upper-case hexadecimal digits of a byte.
pub open spec fn hex_upper_byte(b: u8) -> Seq<char> {
    seq![hex_upper_digit(b as int / 16), hex_upper_digit(b as int % 16)]
}

/// The two lower-case hexadecimal digits of a byte.
pub open spec fn hex_lower_byte(b: u8) -> Seq<char> {
    seq![hex_lower_digit(b as int / 16), hex_lower_digit(b as int % 16)]
}

/// Lower-case hexadecimal of a byte string, two digits per byte.
pub open spec fn hex_lower(data: Seq<u8>) -> Seq<char>
    decreases data.len(),
{
    if data.len() == 0 {
        Seq::empty()
    } else {
        hex_lower(data.drop_last()) + hex_lower_byte(data.last())
    }
}

fn hex_upper_char(d: u8) -> (c: char)
    requires
        d < 16,
    ensures
        c == hex_upper_digit(d as int),
{
    if d < 10 {
        (48u8 + d) as char
    } else {
        (55u8 + d) as char
    }
}

/// Appends the two upper-case hexadecimal digits of `b`.
pub fn push_hex_upper_byte(s: &mut String, b: u8)
    ensures
        final(s)@ == old(s)@ + hex_upper_byte(b),
{
    s.push(hex_upper_char(b / 16));
    s.push(hex_upper_char(b % 16));
    assert(final(s)@ =~= old(s)@ + hex_upper_byte(b));
}

} // verus!
