//! The character tables of the generators: the 62-symbol alphanumeric
//! alphabet (`a`-`z`, `A`-`Z`, `0`-`9`, in that order), the printable ASCII
//! codepoints, and the digit characters used to render numbers.

use vstd::prelude::*;

verus! {

/// Whether `c` belongs to the 62-character alphanumeric alphabet.
pub open spec fn is_alphanum_char(c: char) -> bool {
    ('a' <= c && c <= 'z') || ('A' <= c && c <= 'Z') || ('0' <= c && c <= '9')
}

/// Whether `c` is an upper-case hexadecimal digit character.
pub open spec fn is_upper_hex_char(c: char) -> bool {
    ('0' <= c && c <= '9') || ('A' <= c && c <= 'F')
}

/// The alphabet symbol at index `i`: the lower-case letters at `0..26`, the
/// upper-case letters at `26..52`, the decimal digits at `52..62`.  Indices
/// past the alphabet never arise in a draw; the function maps them to the
/// first symbol to stay total.
pub open spec fn alpha_char(i: u8) -> char {
    if i < 26 {
        ((('a' as u8) + i) as u8) as char
    } else if i < 52 {
        ((('A' as u8) + (i - 26)) as u8) as char
    } else if i < 62 {
        ((('0' as u8) + (i - 52)) as u8) as char
    } else {
        'a'
    }
}

/// The printable character for the codepoint `code`: the character with that
/// code for the printable range `32..=126`.  Codes outside it never arise in
/// a draw; the function maps them to a space to stay total.
pub open spec fn ascii_char(code: u8) -> char {
    if 32 <= code && code <= 126 {
        code as char
    } else {
        ' '
    }
}

/// Every alphabet symbol is alphanumeric, whatever the index.
pub proof fn lemma_alpha_char_alphanum(i: u8)
    ensures
        is_alphanum_char(alpha_char(i)),
{
}

/// Every printable character lies between the space and the tilde.
pub proof fn lemma_ascii_char_printable(code: u8)
    ensures
        ' ' <= ascii_char(code) && ascii_char(code) <= '~',
{
}

/// Computes the alphabet symbol at `i`, exactly as `alpha_char` states it.
pub fn alpha_char_at(i: u8) -> (r: char)
    requires
        i <= 61,
    ensures
        r == alpha_char(i),
{
    if i < 26 {
        (('a' as u8) + i) as char
    } else if i < 52 {
        (('A' as u8) + (i - 26)) as char
    } else {
        (('0' as u8) + (i - 52)) as char
    }
}

/// Computes the printable character for `code`, exactly as `ascii_char`
/// states it.
pub fn ascii_char_at(code: u8) -> (r: char)
    requires
        32 <= code <= 126,
    ensures
        r == ascii_char(code),
{
    code as char
}

/// Relies on `String::push`: appends the given character to the end of the
/// string.
#[verifier::external_body]
pub(crate) fn push_char(s: &mut String, c: char)
    ensures
        final(s)@ == old(s)@.push(c),
{
    s.push(c);
}

} // verus!
