//! The guarantees of the generator, stated over the spec functions that the
//! executable functions are proved against.

use vstd::prelude::*;
use crate::OutputKind;
use crate::effective_seed;
use crate::output_of;
use crate::chars::is_alphanum_char;
use crate::chars::is_upper_hex_char;
use crate::chars::lemma_alpha_char_alphanum;
use crate::chars::lemma_ascii_char_printable;
use crate::gen::ascii_of;
use crate::gen::num_of;
use crate::gen::pow10;
use crate::gen::text_of;
use crate::render::dec_chars;
use crate::render::hex_chars;
use crate::render::hex_chars_plain;
use crate::render::lemma_dec_digit_count;
use crate::stream::nth_alpha_index;
use crate::stream::nth_ascii_code;
use crate::stream::nth_digit;

verus! {

/// Determinism: the output text is a function of the seed, the length and
/// the output kind alone, so two invocations with identical inputs produce
/// identical output.
pub proof fn lemma_deterministic(
    s1: Seq<char>,
    s2: Seq<char>,
    seed: u64,
    length: u8,
    kind: OutputKind,
)
    requires
        s1 == output_of(seed, length, kind),
        s2 == output_of(seed, length, kind),
    ensures
        s1 == s2,
{
}

/// The alphanumeric text for `n` draws has exactly `n` characters.
pub proof fn lemma_text_length(seed: u64, n: nat)
    ensures
        text_of(seed, n).len() == n,
    decreases n,
{
    if n > 0 {
        lemma_text_length(seed, (n - 1) as nat);
    }
}

/// The printable-ASCII text for `n` draws has exactly `n` characters.
pub proof fn lemma_ascii_length(seed: u64, n: nat)
    ensures
        ascii_of(seed, n).len() == n,
    decreases n,
{
    if n > 0 {
        lemma_ascii_length(seed, (n - 1) as nat);
    }
}

/// Length exactness: for the text and ASCII kinds, the output has exactly
/// `length` characters.
pub proof fn lemma_output_length(seed: u64, length: u8, kind: OutputKind)
    requires
        kind is Text || kind is Ascii,
    ensures
        output_of(seed, length, kind).len() == length as nat,
{
    let eff = effective_seed(seed, length);
    match kind {
        OutputKind::Text => lemma_text_length(eff, length as nat),
        OutputKind::Ascii => lemma_ascii_length(eff, length as nat),
        OutputKind::Num { .. } => (),
    }
}

/// Alphabet containment: every character of an alphanumeric text lies in the
/// 62-character alphabet.
pub proof fn lemma_text_alphabet(seed: u64, n: nat)
    ensures
        forall|k: int|
            0 <= k < text_of(seed, n).len() ==> is_alphanum_char(#[trigger] text_of(seed, n)[k]),
    decreases n,
{
    if n > 0 {
        lemma_text_alphabet(seed, (n - 1) as nat);
        lemma_alpha_char_alphanum(nth_alpha_index(seed, (n - 1) as nat));
        assert forall|k: int| 0 <= k < text_of(seed, n).len() implies is_alphanum_char(
            #[trigger] text_of(seed, n)[k],
        ) by {
            if k < text_of(seed, (n - 1) as nat).len() {
                assert(text_of(seed, n)[k] == text_of(seed, (n - 1) as nat)[k]);
            }
        }
    }
}

/// ASCII range containment: every character of a printable-ASCII text lies
/// between the space and the tilde, codepoints 32 and 126.
pub proof fn lemma_ascii_range(seed: u64, n: nat)
    ensures
        forall|k: int|
            0 <= k < ascii_of(seed, n).len() ==> ' ' <= #[trigger] ascii_of(seed, n)[k]
                && ascii_of(seed, n)[k] <= '~',
    decreases n,
{
    if n > 0 {
        lemma_ascii_range(seed, (n - 1) as nat);
        lemma_ascii_char_printable(nth_ascii_code(seed, (n - 1) as nat));
        assert forall|k: int| 0 <= k < ascii_of(seed, n).len() implies ' ' <= #[trigger] ascii_of(
            seed,
            n,
        )[k] && ascii_of(seed, n)[k] <= '~' by {
            if k < ascii_of(seed, (n - 1) as nat).len() {
                assert(ascii_of(seed, n)[k] == ascii_of(seed, (n - 1) as nat)[k]);
            }
        }
    }
}

/// A number of `n` digit draws whose first draw is nonzero is at least
/// `pow10(n - 1)`: its leading digit keeps its weight.
pub proof fn lemma_num_leading_digit_bound(seed: u64, n: nat)
    requires
        1 <= n,
        1 <= nth_digit(seed, 0),
    ensures
        pow10((n - 1) as nat) <= num_of(seed, n),
    decreases n,
{
    if n > 1 {
        lemma_num_leading_digit_bound(seed, (n - 1) as nat);
        assert(num_of(seed, (n - 1) as nat) * 10 >= pow10((n - 2) as nat) * 10) by (nonlinear_arith)
            requires
                num_of(seed, (n - 1) as nat) >= pow10((n - 2) as nat),
        ;
    }
}

/// Numeric digit count: when the leading draw is nonzero, the decimal
/// rendering of the accumulated number has exactly `length` digits.  (A
/// leading zero draw drops its weight under standard base-10 rendering, and
/// a zero length renders as the single digit `0`; those inputs are the ones
/// this law leaves out.)
pub proof fn lemma_num_digit_count(seed: u64, n: nat)
    requires
        1 <= n,
        1 <= nth_digit(seed, 0),
        num_of(seed, n) < pow10(n),
    ensures
        dec_chars(num_of(seed, n)).len() == n,
{
    lemma_num_leading_digit_bound(seed, n);
    lemma_dec_digit_count(num_of(seed, n), n);
}

/// The plain hexadecimal rendering is never empty and holds only upper-case
/// hexadecimal digit characters.
proof fn lemma_hex_plain_shape(v: nat)
    ensures
        1 <= hex_chars_plain(v).len(),
        forall|k: int|
            0 <= k < hex_chars_plain(v).len() ==> is_upper_hex_char(
                #[trigger] hex_chars_plain(v)[k],
            ),
    decreases v,
{
    if v >= 16 {
        lemma_hex_plain_shape(v / 16);
        assert forall|k: int| 0 <= k < hex_chars_plain(v).len() implies is_upper_hex_char(
            #[trigger] hex_chars_plain(v)[k],
        ) by {
            if k < hex_chars_plain(v / 16).len() {
                assert(hex_chars_plain(v)[k] == hex_chars_plain(v / 16)[k]);
            }
        }
    }
}

/// Hex padding: the hexadecimal output has at least two characters, all of
/// them upper-case hexadecimal digits, with a zero pad for one-digit values.
pub proof fn lemma_hex_padding(v: nat)
    ensures
        2 <= hex_chars(v).len(),
        forall|k: int|
            0 <= k < hex_chars(v).len() ==> is_upper_hex_char(#[trigger] hex_chars(v)[k]),
{
    lemma_hex_plain_shape(v);
    if v >= 16 {
        lemma_hex_plain_shape(v / 16);
    }
}

/// Seed sensitivity: with the length fixed, different seeds derive different
/// effective seeds.
pub proof fn lemma_seed_sensitivity_in_seed(seed1: u64, seed2: u64, length: u8)
    requires
        seed1 != seed2,
    ensures
        effective_seed(seed1, length) != effective_seed(seed2, length),
{
}

/// Seed sensitivity: with the seed fixed, different lengths derive different
/// effective seeds.
pub proof fn lemma_seed_sensitivity_in_length(seed: u64, length1: u8, length2: u8)
    requires
        length1 != length2,
    ensures
        effective_seed(seed, length1) != effective_seed(seed, length2),
{
}

} // verus!
