//! Small text primitives shared by the query builder and the file manager:
//! appending to strings, decimal formatting, and identifier validation.

use vstd::prelude::*;

verus! {

/// Relies on `String::push_str`: appends the given string slice to the end.
pub assume_specification[ String::push_str ](s: &mut String, other: &str)
    ensures
        final(s)@ == old(s)@ + other@,
;

/// Relies on `String::push`: appends the given character to the end.
pub assume_specification[ String::push ](s: &mut String, ch: char)
    ensures
        final(s)@ == old(s)@.push(ch),
;

/// Relies on `str::contains` with a `char` pattern: true iff the character
/// occurs in the string.
#[verifier::external_body]
pub(crate) fn str_contains_char(s: &str, c: char) -> (r: bool)
    ensures
        r == s@.contains(c),
{
    s.contains(c)
}

/// Relies on `str` equality: true iff the two strings hold the same
/// characters.
#[verifier::external_body]
pub(crate) fn str_eq(a: &str, b: &str) -> (r: bool)
    ensures
        r == (a@ == b@),
{
    a == b
}

/// Relies on `String::from_utf8`: decodes the bytes when they are valid
/// UTF-8 and refuses them otherwise.
#[verifier::external_body]
pub(crate) fn string_from_utf8(v: Vec<u8>) -> (r: Option<String>)
    ensures
        match r {
            Some(s) => vstd::utf8::valid_utf8(v@) && s@ == vstd::utf8::decode_utf8(v@),
            None => !vstd::utf8::valid_utf8(v@),
        },
{
    String::from_utf8(v).ok()
}

/// Relies on `str::chars` collected into a vector: the characters of the
/// string, in order.
#[verifier::external_body]
pub(crate) fn str_chars(s: &str) -> (r: Vec<char>)
    ensures
        r@ == s@,
{
    s.chars().collect()
}

/// The decimal digit character for `d` (which must be below ten).
pub open spec fn digit_char(d: int) -> char {
    if d == 0 {
        '0'
    } else if d == 1 {
        '1'
    } else if d == 2 {
        '2'
    } else if d == 3 {
        '3'
    } else if d == 4 {
        '4'
    } else if d == 5 {
        '5'
    } else if d == 6 {
        '6'
    } else if d == 7 {
        '7'
    } else if d == 8 {
        '8'
    } else {
        '9'
    }
}

/// The decimal representation of `n`, without leading zeroes
/// (a single `'0'` for zero).
pub open spec fn dec_u64(n: int) -> Seq<char>
    decreases n,
{
    if n < 10 {
        seq![digit_char(n)]
    } else {
        dec_u64(n / 10).push(digit_char(n % 10))
    }
}

/// The lower-case hexadecimal digit character for `d` (which must be below sixteen).
pub open spec fn hex_digit_char(d: int) -> char {
    if d < 10 {
        digit_char(d)
    } else if d == 10 {
        'a'
    } else if d == 11 {
        'b'
    } else if d == 12 {
        'c'
    } else if d == 13 {
        'd'
    } else if d == 14 {
        'e'
    } else {
        'f'
    }
}

fn digit_char_exec(d: u64) -> (r: char)
    requires
        d < 10,
    ensures
        r == digit_char(d as int),
{
    match d {
        0 => '0',
        1 => '1',
        2 => '2',
        3 => '3',
        4 => '4',
        5 => '5',
        6 => '6',
        7 => '7',
        8 => '8',
        _ => '9',
    }
}

/// Appends the decimal representation of `n` to `s`.
pub fn push_u64_decimal(s: &mut String, n: u64)
    ensures
        final(s)@ == old(s)@ + dec_u64(n as int),
    decreases n,
{
    if n >= 10 {
        push_u64_decimal(s, n / 10);
        let d = digit_char_exec(n % 10);
        s.push(d);
        assert(s@ =~= old(s)@ + dec_u64(n as int));
    } else {
        let d = digit_char_exec(n);
        s.push(d);
        assert(s@ =~= old(s)@ + dec_u64(n as int));
    }
}

/// The decimal representation of `n` as a fresh string.
pub fn u64_to_decimal(n: u64) -> (r: String)
    ensures
        r@ == dec_u64(n as int),
{
    let mut s = String::new();
    push_u64_decimal(&mut s, n);
    assert(s@ =~= dec_u64(n as int));
    s
}

/// An identifier may be quoted only when it embeds neither a double quote
/// nor a backslash.
pub open spec fn valid_name(s: Seq<char>) -> bool {
    !s.contains('"') && !s.contains('\\')
}

/// Checks that an identifier is safe to quote.
pub fn is_valid_name(s: &str) -> (r: bool)
    ensures
        r == valid_name(s@),
{
    !str_contains_char(s, '"') && !str_contains_char(s, '\\')
}

} // verus!
