//! The three generators.  Each one consumes a fresh pseudo-random stream for
//! an effective seed and is proved to return exactly the value that its spec
//! function states over the named draws of that stream.

use vstd::prelude::*;
use crate::chars::alpha_char;
use crate::chars::alpha_char_at;
use crate::chars::ascii_char;
use crate::chars::ascii_char_at;
use crate::chars::is_alphanum_char;
use crate::chars::push_char;
use crate::stream::DrawStyle;
use crate::stream::RandomStream;
use crate::stream::nth_alpha_index;
use crate::stream::nth_ascii_code;
use crate::stream::nth_digit;

verus! {

/// Ten to the power `n`.
pub open spec fn pow10(n: nat) -> nat
    decreases n,
{
    if n == 0 {
        1
    } else {
        10 * pow10((n - 1) as nat)
    }
}

/// `pow10` grows with its argument.
pub proof fn lemma_pow10_monotone(a: nat, b: nat)
    requires
        a <= b,
    ensures
        pow10(a) <= pow10(b),
    decreases b,
{
    if a < b {
        lemma_pow10_monotone(a, (b - 1) as nat);
    }
}

/// Thirty-eight digits fit in an unsigned 128-bit accumulator.
pub proof fn lemma_pow10_38_fits()
    ensures
        pow10(38) <= u128::MAX,
{
    assert(pow10(38) == 100_000_000_000_000_000_000_000_000_000_000_000_000) by {
        reveal_with_fuel(pow10, 39);
    }
}

/// The number that accumulating the first `n` digit draws of the stream for
/// `seed` yields: each draw appends one decimal digit on the right.
pub open spec fn num_of(seed: u64, n: nat) -> nat
    decreases n,
{
    if n == 0 {
        0
    } else {
        (num_of(seed, (n - 1) as nat) * 10 + nth_digit(seed, (n - 1) as nat)) as nat
    }
}

/// The alphanumeric text that the first `n` alphabet-index draws of the
/// stream for `seed` yield, in draw order.
pub open spec fn text_of(seed: u64, n: nat) -> Seq<char>
    decreases n,
{
    if n == 0 {
        Seq::empty()
    } else {
        text_of(seed, (n - 1) as nat).push(alpha_char(nth_alpha_index(seed, (n - 1) as nat)))
    }
}

/// The printable-ASCII text that the first `n` codepoint draws of the stream
/// for `seed` yield, in draw order.
pub open spec fn ascii_of(seed: u64, n: nat) -> Seq<char>
    decreases n,
{
    if n == 0 {
        Seq::empty()
    } else {
        ascii_of(seed, (n - 1) as nat).push(ascii_char(nth_ascii_code(seed, (n - 1) as nat)))
    }
}

/// Draws `length` decimal digits from the stream for `seed` and accumulates
/// them into one number, most significant digit first.
pub fn gen_num(length: u8, seed: u64) -> (r: u128)
    requires
        length <= 38,
    ensures
        r == num_of(seed, length as nat),
        r < pow10(length as nat),
{
    let mut rng = RandomStream::new(seed, DrawStyle::Digit);
    let mut result: u128 = 0;
    let mut i: u8 = 0;
    while i < length
        invariant
            i <= length <= 38,
            rng.seed() == seed,
            rng.style() == DrawStyle::Digit,
            rng.draws() == i as nat,
            result == num_of(seed, i as nat),
            result < pow10(i as nat),
        decreases length - i,
    {
        proof {
            lemma_pow10_monotone((i + 1) as nat, 38);
            lemma_pow10_38_fits();
        }
        let d = rng.draw_digit(0, 9);
        result = result * 10 + d as u128;
        i = i + 1;
    }
    result
}

/// Draws `length` alphabet indices from the stream for `seed` and
/// concatenates the alphabet symbols they select.
pub fn gen_text(length: u8, seed: u64) -> (r: String)
    ensures
        r@ == text_of(seed, length as nat),
        r@.len() == length as nat,
        forall|k: int| 0 <= k < r@.len() ==> is_alphanum_char(#[trigger] r@[k]),
{
    let mut rng = RandomStream::new(seed, DrawStyle::Alpha);
    let mut result = String::new();
    let mut i: u8 = 0;
    while i < length
        invariant
            i <= length,
            rng.seed() == seed,
            rng.style() == DrawStyle::Alpha,
            rng.draws() == i as nat,
            result@ == text_of(seed, i as nat),
            result@.len() == i as nat,
            forall|k: int| 0 <= k < result@.len() ==> is_alphanum_char(#[trigger] result@[k]),
        decreases length - i,
    {
        let idx = rng.draw_alpha_index(0, 61);
        let c = alpha_char_at(idx);
        proof {
            crate::chars::lemma_alpha_char_alphanum(idx);
        }
        push_char(&mut result, c);
        i = i + 1;
    }
    result
}

/// Draws `length` printable codepoints from the stream for `seed` and
/// concatenates their characters.  Every draw lies in the single-byte range,
/// so the result is always valid text.
pub fn gen_ascii(length: u8, seed: u64) -> (r: String)
    ensures
        r@ == ascii_of(seed, length as nat),
        r@.len() == length as nat,
        forall|k: int| 0 <= k < r@.len() ==> ' ' <= #[trigger] r@[k] && r@[k] <= '~',
{
    let mut rng = RandomStream::new(seed, DrawStyle::Ascii);
    let mut result = String::new();
    let mut i: u8 = 0;
    while i < length
        invariant
            i <= length,
            rng.seed() == seed,
            rng.style() == DrawStyle::Ascii,
            rng.draws() == i as nat,
            result@ == ascii_of(seed, i as nat),
            result@.len() == i as nat,
            forall|k: int| 0 <= k < result@.len() ==> ' ' <= #[trigger] result@[k] && result@[k] <= '~',
        decreases length - i,
    {
        let code = rng.draw_ascii_code(32, 126);
        let c = ascii_char_at(code);
        proof {
            crate::chars::lemma_ascii_char_printable(code);
        }
        push_char(&mut result, c);
        i = i + 1;
    }
    result
}

} // verus!
