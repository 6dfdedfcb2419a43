//! A deterministic pseudo-random value generator: given a seed and a
//! requested length, it reproducibly emits a number (decimal or upper-case
//! hexadecimal), an alphanumeric string, or a printable-ASCII string.  The
//! whole output is pinned down as a function of the seed, the length and the
//! output kind.

use vstd::prelude::*;

pub mod chars;
pub mod gen;
pub mod laws;
pub mod render;
pub mod stream;

use crate::gen::ascii_of;
use crate::gen::gen_ascii;
use crate::gen::gen_num;
use crate::gen::gen_text;
use crate::gen::num_of;
use crate::gen::text_of;
use crate::render::dec_chars;
use crate::render::format_decimal;
use crate::render::format_hex;
use crate::render::hex_chars;

verus! {

/// The output kind selected on the command line.
#[derive(Clone, Copy, Debug)]
pub enum OutputKind {
    /// A whole number, rendered in decimal, or in padded upper-case
    /// hexadecimal when `hex` is set.
    Num { hex: bool },
    /// An alphanumeric string over the 62-character alphabet.
    Text,
    /// A printable-ASCII string.
    Ascii,
}

/// The one way a request can be rejected: a length beyond the 38 digits that
/// the numeric accumulator holds.
#[derive(Clone, Copy, Debug, PartialEq, Eq, Structural)]
pub enum GenError {
    LengthOutOfRange,
}

/// The largest length a request may ask for.
pub const MAX_LENGTH: u8 = 38;

/// The seed handed to the pseudo-random stream: the caller's seed combined
/// with the requested output length by a wrapping 64-bit addition.
pub open spec fn effective_seed(seed: u64, length: u8) -> u64 {
    if seed + length > u64::MAX {
        (seed + length - 0x1_0000_0000_0000_0000) as u64
    } else {
        (seed + length) as u64
    }
}

/// Computes the effective seed exactly as `effective_seed` states it.
pub fn derive_seed(seed: u64, length: u8) -> (r: u64)
    ensures
        r == effective_seed(seed, length),
{
    seed.wrapping_add(length as u64)
}

/// The full output text for a request: the generator of `kind`, run on the
/// stream seeded with the effective seed for `(seed, length)`, rendered as
/// the command prints it.
pub open spec fn output_of(seed: u64, length: u8, kind: OutputKind) -> Seq<char> {
    let eff = effective_seed(seed, length);
    match kind {
        OutputKind::Num { hex } => if hex {
            hex_chars(num_of(eff, length as nat))
        } else {
            dec_chars(num_of(eff, length as nat))
        },
        OutputKind::Text => text_of(eff, length as nat),
        OutputKind::Ascii => ascii_of(eff, length as nat),
    }
}

/// Serves one request: rejects a length beyond `MAX_LENGTH`, and otherwise
/// returns exactly the output text that `output_of` states for the inputs.
pub fn generate(seed: u64, length: u8, kind: OutputKind) -> (r: Result<String, GenError>)
    ensures
        r is Ok <==> length <= MAX_LENGTH,
        length <= MAX_LENGTH ==> r->Ok_0@ == output_of(seed, length, kind),
        length > MAX_LENGTH ==> r->Err_0 == GenError::LengthOutOfRange,
{
    if length > MAX_LENGTH {
        return Err(GenError::LengthOutOfRange);
    }
    let eff = derive_seed(seed, length);
    let out = match kind {
        OutputKind::Num { hex } => {
            let value = gen_num(length, eff);
            if hex {
                format_hex(value)
            } else {
                format_decimal(value)
            }
        },
        OutputKind::Text => gen_text(length, eff),
        OutputKind::Ascii => gen_ascii(length, eff),
    };
    Ok(out)
}

} // verus!
