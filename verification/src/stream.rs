//! The seeded pseudo-random stream that every generator draws from.
//!
//! The stream itself comes from the `rand` crate (`StdRng`, seeded with
//! `seed_from_u64`), so the value of each draw cannot be computed here.
//! Instead each draw is given a name: an uninterpreted function of the seed
//! and of how many draws came before it.  Everything the generators prove is
//! stated over those names, which pins the whole output down to a function of
//! the seed alone.

use vstd::prelude::*;
use rand::Rng;
use rand::SeedableRng;
use rand::rngs::StdRng;

verus! {

#[verifier::external_type_specification]
#[verifier::external_body]
pub struct ExStdRng(StdRng);

/// Which of the three draw sequences a stream serves.  A stream is committed
/// to one of them when it is created: every draw on it uses the same element
/// type and the same bounds, so the position of a draw in the stream
/// determines its value.
#[derive(Clone, Copy)]
pub(crate) enum DrawStyle {
    /// Decimal digits: `i32` values drawn from the half-open range `0..9`.
    Digit,
    /// Alphabet indices: `usize` values drawn from `0..=61`.
    Alpha,
    /// Printable codepoints: `u8` values drawn from `32..=126`.
    Ascii,
}

/// The value of the draw at position `n` of the digit stream seeded with
/// `seed`: what `rand::Rng::random_range(0..9)` on `i32` returns from
/// `StdRng::seed_from_u64(seed)` after `n` such draws.
pub uninterp spec fn nth_digit(seed: u64, n: nat) -> u8;

/// The value of the draw at position `n` of the alphabet-index stream seeded
/// with `seed`: what `rand::Rng::random_range(0..=61)` on `usize` returns
/// from `StdRng::seed_from_u64(seed)` after `n` such draws.
pub uninterp spec fn nth_alpha_index(seed: u64, n: nat) -> u8;

/// The value of the draw at position `n` of the printable-codepoint stream
/// seeded with `seed`: what `rand::Rng::random_range(32..=126)` on `u8`
/// returns from `StdRng::seed_from_u64(seed)` after `n` such draws.
pub uninterp spec fn nth_ascii_code(seed: u64, n: nat) -> u8;

/// Relies on `rand::SeedableRng::seed_from_u64`: the documented deterministic
/// seeding of `StdRng`, so the stream of draws is a function of `seed` alone.
#[verifier::external_body]
fn seed_rng(seed: u64) -> StdRng {
    StdRng::seed_from_u64(seed)
}

/// A pseudo-random stream, created once per generated value and consumed by
/// exactly one generator.  The ghost fields record the seed it was created
/// from, the draw sequence it is committed to, and how many draws were made;
/// only `RandomStream::new` builds a stream, so they always describe the
/// state of the generator held in `rng`.
pub(crate) struct RandomStream {
    rng: StdRng,
    seed: Ghost<u64>,
    style: Ghost<DrawStyle>,
    draws: Ghost<nat>,
}

impl RandomStream {
    /// The seed this stream was created from.
    pub(crate) closed spec fn seed(self) -> u64 {
        self.seed@
    }

    /// The draw sequence this stream is committed to.
    pub(crate) closed spec fn style(self) -> DrawStyle {
        self.style@
    }

    /// How many draws were made on this stream so far.
    pub(crate) closed spec fn draws(self) -> nat {
        self.draws@
    }

    /// A fresh stream for `seed`, committed to the draw sequence of `style`.
    pub(crate) fn new(seed: u64, style: DrawStyle) -> (r: RandomStream)
        ensures
            r.seed() == seed,
            r.style() == style,
            r.draws() == 0,
    {
        RandomStream {
            rng: seed_rng(seed),
            seed: Ghost(seed),
            style: Ghost(style),
            draws: Ghost(0nat),
        }
    }

    /// Relies on `rand::Rng::random_range` over `lo..hi` on `i32`: the result
    /// lies in the half-open range, and it is a deterministic function of the
    /// generator's state, so of the seed and the draw position.
    #[verifier::external_body]
    pub(crate) fn draw_digit(&mut self, lo: i32, hi: i32) -> (r: u8)
        requires
            old(self).style() == DrawStyle::Digit,
            lo == 0,
            hi == 9,
        ensures
            final(self).seed() == old(self).seed(),
            final(self).style() == old(self).style(),
            final(self).draws() == old(self).draws() + 1,
            r == nth_digit(old(self).seed(), old(self).draws()),
            lo <= r < hi,
    {
        self.rng.random_range(lo..hi) as u8
    }

    /// Relies on `rand::Rng::random_range` over `lo..=hi` on `usize`: the
    /// result lies in the inclusive range, and it is a deterministic function
    /// of the generator's state, so of the seed and the draw position.
    #[verifier::external_body]
    pub(crate) fn draw_alpha_index(&mut self, lo: usize, hi: usize) -> (r: u8)
        requires
            old(self).style() == DrawStyle::Alpha,
            lo == 0,
            hi == 61,
        ensures
            final(self).seed() == old(self).seed(),
            final(self).style() == old(self).style(),
            final(self).draws() == old(self).draws() + 1,
            r == nth_alpha_index(old(self).seed(), old(self).draws()),
            lo <= r <= hi,
    {
        self.rng.random_range(lo..=hi) as u8
    }

    /// Relies on `rand::Rng::random_range` over `lo..=hi` on `u8`: the result
    /// lies in the inclusive range, and it is a deterministic function of the
    /// generator's state, so of the seed and the draw position.
    #[verifier::external_body]
    pub(crate) fn draw_ascii_code(&mut self, lo: u8, hi: u8) -> (r: u8)
        requires
            old(self).style() == DrawStyle::Ascii,
            lo == 32,
            hi == 126,
        ensures
            final(self).seed() == old(self).seed(),
            final(self).style() == old(self).style(),
            final(self).draws() == old(self).draws() + 1,
            r == nth_ascii_code(old(self).seed(), old(self).draws()),
            lo <= r <= hi,
    {
        self.rng.random_range(lo..=hi)
    }
}

} // verus!
