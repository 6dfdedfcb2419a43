//! Rendering of the numeric output: standard base-10 rendering, and
//! upper-case hexadecimal zero-padded to at least two characters.

use vstd::prelude::*;
use crate::chars::push_char;
use crate::gen::pow10;
use crate::gen::lemma_pow10_monotone;

verus! {

/// The character of the decimal digit `d` (taken modulo ten).
pub open spec fn dec_digit_char(d: nat) -> char {
    ((('0' as u8) + (d % 10)) as u8) as char
}

/// The character of the hexadecimal digit `d` (taken modulo sixteen), with
/// upper-case letters.
pub open spec fn hex_digit_char(d: nat) -> char {
    if d % 16 < 10 {
        ((('0' as u8) + (d % 16)) as u8) as char
    } else {
        ((('A' as u8) + (d % 16 - 10)) as u8) as char
    }
}

/// The standard base-10 rendering of `v`: no sign, no padding, a single `0`
/// for zero.
pub open spec fn dec_chars(v: nat) -> Seq<char>
    decreases v,
{
    if v < 10 {
        seq![dec_digit_char(v)]
    } else {
        dec_chars(v / 10).push(dec_digit_char(v % 10))
    }
}

/// The plain upper-case base-16 rendering of `v`.
pub open spec fn hex_chars_plain(v: nat) -> Seq<char>
    decreases v,
{
    if v < 16 {
        seq![hex_digit_char(v)]
    } else {
        hex_chars_plain(v / 16).push(hex_digit_char(v % 16))
    }
}

/// The upper-case base-16 rendering of `v`, zero-padded on the left to at
/// least two characters.
pub open spec fn hex_chars(v: nat) -> Seq<char> {
    if v < 16 {
        seq!['0'].push(hex_digit_char(v))
    } else {
        hex_chars_plain(v)
    }
}

/// Computes the decimal digit character of `d`, exactly as `dec_digit_char`
/// states it.
fn dec_digit_char_at(d: u8) -> (r: char)
    requires
        d < 10,
    ensures
        r == dec_digit_char(d as nat),
{
    (('0' as u8) + d) as char
}

/// Computes the hexadecimal digit character of `d`, exactly as
/// `hex_digit_char` states it.
fn hex_digit_char_at(d: u8) -> (r: char)
    requires
        d < 16,
    ensures
        r == hex_digit_char(d as nat),
{
    if d < 10 {
        (('0' as u8) + d) as char
    } else {
        (('A' as u8) + (d - 10)) as char
    }
}

/// Relies on `String::insert`: inserts the given character at the given byte
/// position; position zero is always a character boundary, so this prepends
/// it.
#[verifier::external_body]
fn prepend_char(s: &mut String, c: char)
    ensures
        final(s)@ == seq![c] + old(s)@,
{
    s.insert(0, c);
}

/// Renders `v` in decimal, exactly as `dec_chars` states it.
pub fn format_decimal(v: u128) -> (r: String)
    ensures
        r@ == dec_chars(v as nat),
{
    let mut out = String::new();
    let mut rest = v;
    proof {
        assert(dec_chars(rest as nat) + out@ =~= dec_chars(v as nat));
    }
    loop
        invariant_except_break
            dec_chars(v as nat) == dec_chars(rest as nat) + out@,
        ensures
            dec_chars(v as nat) == out@,
        decreases rest,
    {
        let d = (rest % 10) as u8;
        let c = dec_digit_char_at(d);
        let next = rest / 10;
        proof {
            if rest >= 10 {
                assert(dec_chars(rest as nat) == dec_chars(next as nat).push(
                    dec_digit_char(rest as nat % 10)));
                assert(dec_chars(next as nat) + (seq![c] + out@) =~= (dec_chars(next as nat)
                    + seq![c]) + out@);
                assert(dec_chars(next as nat) + seq![c] =~= dec_chars(rest as nat));
            } else {
                assert(dec_chars(rest as nat) =~= seq![c]);
                assert(seq![c] + out@ =~= dec_chars(rest as nat) + out@);
            }
        }
        prepend_char(&mut out, c);
        if next == 0 {
            break;
        }
        rest = next;
    }
    out
}

/// Renders `v` in padded upper-case hexadecimal, exactly as `hex_chars`
/// states it.
pub fn format_hex(v: u128) -> (r: String)
    ensures
        r@ == hex_chars(v as nat),
{
    if v < 16 {
        let mut padded = String::new();
        push_char(&mut padded, '0');
        push_char(&mut padded, hex_digit_char_at(v as u8));
        proof {
            assert(padded@ =~= hex_chars(v as nat));
        }
        return padded;
    }
    let mut out = String::new();
    let mut rest = v;
    proof {
        assert(hex_chars_plain(rest as nat) + out@ =~= hex_chars_plain(v as nat));
    }
    loop
        invariant_except_break
            hex_chars_plain(v as nat) == hex_chars_plain(rest as nat) + out@,
        ensures
            hex_chars_plain(v as nat) == out@,
        decreases rest,
    {
        let d = (rest % 16) as u8;
        let c = hex_digit_char_at(d);
        let next = rest / 16;
        proof {
            if rest >= 16 {
                assert(hex_chars_plain(rest as nat) == hex_chars_plain(next as nat).push(
                    hex_digit_char(rest as nat % 16)));
                assert(hex_chars_plain(next as nat) + (seq![c] + out@) =~= (hex_chars_plain(
                    next as nat,
                ) + seq![c]) + out@);
                assert(hex_chars_plain(next as nat) + seq![c] =~= hex_chars_plain(rest as nat));
            } else {
                assert(hex_chars_plain(rest as nat) =~= seq![c]);
                assert(seq![c] + out@ =~= hex_chars_plain(rest as nat) + out@);
            }
        }
        prepend_char(&mut out, c);
        if next == 0 {
            break;
        }
        rest = next;
    }
    out
}

/// The decimal rendering of a value with `n` digits — one at least
/// `pow10(n - 1)` and less than `pow10(n)` — has exactly `n` characters.
pub proof fn lemma_dec_digit_count(v: nat, n: nat)
    requires
        1 <= n,
        pow10((n - 1) as nat) <= v < pow10(n),
    ensures
        dec_chars(v).len() == n,
    decreases n,
{
    if n == 1 {
        assert(v < 10);
    } else {
        lemma_pow10_monotone(1, (n - 1) as nat);
        assert(v >= 10);
        assert(pow10(n) == 10 * pow10((n - 1) as nat));
        assert(pow10((n - 1) as nat) == 10 * pow10((n - 2) as nat));
        assert(pow10((n - 2) as nat) <= v / 10 < pow10((n - 1) as nat)) by (nonlinear_arith)
            requires
                10 * pow10((n - 2) as nat) <= v < 10 * pow10((n - 1) as nat),
        ;
        lemma_dec_digit_count(v / 10, (n - 1) as nat);
    }
}

} // verus!
