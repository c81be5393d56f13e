//! A small pseudo-random source: the standard library's default hasher
//! applied to a counter mixed with a seed.

use std::collections::hash_map::DefaultHasher;
use std::hash::Hasher;
use vstd::bytes::{spec_u64_to_le_bytes, u64_to_le_bytes};
use vstd::prelude::*;
use vstd::std_specs::hash::DefaultHasherAdditionalSpecFns;

verus! {

/// A stream of pseudo-random numbers. Nothing about it is fit for secrets.
pub struct PsuedoRandom {
    seed: usize,
    incr: u64,
}

/// The hash of `value`: what a fresh default hasher returns once the eight
/// bytes of `value`, lowest first, have been written to it in one piece.
pub open spec fn hashed(value: usize) -> u64 {
    DefaultHasher::spec_finish(seq![spec_u64_to_le_bytes(value as u64)])
}

/// The position within `0 .. span` that corresponds to `raw` when the whole
/// range of `u64` is stretched over the span; the top of the range falls
/// back on zero.
pub open spec fn scaled(raw: u64, span: nat) -> nat
    recommends
        span > 0,
{
    ((raw as nat * span / (u64::MAX as nat)) % span) as nat
}

/// The number that a raw draw stands for in the range from `low` up to,
/// but not including, `high`; `low` itself when the range is empty.
pub open spec fn picked(raw: u64, low: usize, high: usize) -> nat
    recommends
        low <= high,
{
    if low == high {
        low as nat
    } else {
        low as nat + scaled(raw, (high - low) as nat)
    }
}

/// The raw number that a source with the given seed gives as its draw
/// number `draws`, counted from zero: the hash of the count mixed with the
/// seed.
pub open spec fn raw_at(seed: usize, draws: u64) -> u64 {
    hashed((draws as usize) ^ seed)
}

/// Hashes `value` with a fresh default hasher.
pub fn hash_of(value: usize) -> (hash: u64)
    ensures
        hash == hashed(value),
{
    let mut hasher = DefaultHasher::new();
    let bytes = u64_to_le_bytes(value as u64);
    hasher.write(bytes.as_slice());
    assert(hasher@ =~= seq![spec_u64_to_le_bytes(value as u64)]);
    hasher.finish()
}

/// Maps a raw draw into the range from `low` up to, but not including,
/// `high`. An empty range gives `low`.
pub fn pick_in_range(raw: u64, low: usize, high: usize) -> (value: usize)
    requires
        low <= high,
    ensures
        value == picked(raw, low, high),
        low <= value <= high,
        low < high ==> value < high,
{
    let diff = high - low;
    if diff == 0 {
        return low;
    }
    assert(raw as nat * diff as nat <= 0xffff_ffff_ffff_ffff * 0xffff_ffff_ffff_ffff)
        by (nonlinear_arith)
        requires
            raw <= 0xffff_ffff_ffff_ffff,
            diff <= 0xffff_ffff_ffff_ffff,
    ;
    let product: u128 = (raw as u128) * (diff as u128);
    let quotient: u128 = product / (u64::MAX as u128);
    let offset: u128 = quotient % (diff as u128);
    assert(offset < diff as u128);
    low + (offset as usize)
}

impl PsuedoRandom {
    /// The seed the source was created with.
    pub closed spec fn seed(&self) -> usize {
        self.seed
    }

    /// The number of draws made so far, counted modulo 2^64.
    pub closed spec fn draws(&self) -> u64 {
        self.incr
    }

    /// The raw number that the next draw gives: the hash of the number of
    /// draws so far, mixed with the seed.
    pub open spec fn upcoming(&self) -> u64 {
        raw_at(self.seed(), self.draws())
    }

    /// Creates a source from `seed`. Equal seeds give equal streams.
    pub fn new(seed: usize) -> (source: PsuedoRandom)
        ensures
            source.seed() == seed,
            source.draws() == 0,
    {
        PsuedoRandom { seed, incr: 0 }
    }

    /// Draws the next raw number.
    pub fn random(&mut self) -> (raw: u64)
        ensures
            raw == old(self).upcoming(),
            final(self).seed() == old(self).seed(),
            final(self).draws() == old(self).draws().wrapping_add(1),
    {
        let counter = #[verifier::truncate]
        (self.incr as usize);
        let raw = hash_of(counter ^ self.seed);
        self.incr = self.incr.wrapping_add(1);
        raw
    }

    /// Draws a number from `low` up to, but not including, `high`. When the
    /// two are equal the result is `low` and nothing is drawn.
    pub fn random_in_range(&mut self, low: usize, high: usize) -> (value: usize)
        requires
            low <= high,
        ensures
            value == picked(old(self).upcoming(), low, high),
            low <= value <= high,
            low < high ==> value < high,
            final(self).seed() == old(self).seed(),
            final(self).draws() == if low == high {
                old(self).draws()
            } else {
                old(self).draws().wrapping_add(1)
            },
    {
        if high - low == 0 {
            return low;
        }
        let raw = self.random();
        pick_in_range(raw, low, high)
    }

    /// Hashes `value` mixed with the seed. The stream is not advanced.
    pub fn hash_value(&self, value: usize) -> (hash: u64)
        ensures
            hash == hashed(value ^ self.seed()),
    {
        hash_of(value ^ self.seed)
    }
}

/// Two sources with the same seed that have made the same number of draws
/// give the same number next, whatever range it is asked for.
pub proof fn equal_seeds_give_equal_streams(
    first: PsuedoRandom,
    second: PsuedoRandom,
    low: usize,
    high: usize,
)
    requires
        first.seed() == second.seed(),
        first.draws() == second.draws(),
    ensures
        first.upcoming() == second.upcoming(),
        picked(first.upcoming(), low, high) == picked(second.upcoming(), low, high),
{
}

} // verus!
