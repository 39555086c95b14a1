use vstd::prelude::*;

use rand_chacha::rand_core::{Rng, SeedableRng};

verus! {

/// The 32-bit word at position `index` of the ChaCha8 keystream obtained by
/// expanding `seed`. It is a fixed function of the two arguments: the same
/// seed and position give the same word in every process and on every
/// machine, which is what makes generation reproducible.
pub uninterp spec fn chacha_word(seed: u64, index: u64) -> u32;

/// Relies on rand_chacha's `ChaCha8Rng`: `seed_from_u64` expands a 64-bit
/// value into the cipher key deterministically, `set_word_pos` seeks to a
/// word position of the keystream, and `next_u32` returns the 32-bit word
/// there. The word returned depends on `seed` and `index` alone.
#[verifier::external_body]
fn chacha_word_at(seed: u64, index: u64) -> (r: u32)
    ensures
        r == chacha_word(seed, index),
{
    let mut rng = rand_chacha::ChaCha8Rng::seed_from_u64(seed);
    rng.set_word_pos(index as u128);
    rng.next_u32()
}

/// A sequential pseudo-random source: the single place randomness enters
/// generation. A substrate is an explicit value — there is no ambient
/// global stream — so one generation call owns its substrate for its whole
/// duration, and every draw is pinned to `chacha_word(seed, index)`.
pub struct Substrate {
    pub seed: u64,
    pub index: u64,
}

/// A single die: `chacha_word` reduced to `1..=sides`.
pub open spec fn spec_die(seed: u64, i: int, sides: u32) -> int
    recommends
        sides > 0,
{
    (chacha_word(seed, i as u64) % sides) as int + 1
}

/// The sum of `dice` consecutive dice starting at draw position `i`.
pub open spec fn spec_roll(seed: u64, i: int, dice: int, sides: u32) -> int
    recommends
        sides > 0,
    decreases dice,
{
    if dice <= 0 {
        0
    } else {
        spec_roll(seed, i, dice - 1, sides) + spec_die(seed, i + dice - 1, sides)
    }
}

/// A dice sum lies between the dice count and the count times the sides.
pub proof fn lemma_roll_bounds(seed: u64, i: int, dice: int, sides: u32)
    requires
        dice >= 0,
        sides >= 1,
    ensures
        dice <= spec_roll(seed, i, dice, sides) <= dice * sides,
    decreases dice,
{
    if dice > 0 {
        lemma_roll_bounds(seed, i, dice - 1, sides);
        assert((dice - 1) * sides + sides == dice * sides) by (nonlinear_arith);
    }
}

/// A uniform index below `max`.
pub open spec fn spec_range(seed: u64, i: int, max: usize) -> int
    recommends
        max > 0,
{
    (chacha_word(seed, i as u64) % (max as u32)) as int
}

/// A per-mille draw, used against the sector's cell density.
pub open spec fn spec_permille(seed: u64, i: int) -> int {
    (chacha_word(seed, i as u64) % 1000u32) as int
}

impl Substrate {
    /// Seed a fresh substrate; its draw counter starts at zero.
    pub fn seed_with(value: u64) -> (r: Substrate)
        ensures
            r.seed == value,
            r.index == 0,
    {
        Substrate { seed: value, index: 0 }
    }

    /// Consume one draw: the keystream word at the current position.
    pub fn draw(&mut self) -> (r: u32)
        requires
            old(self).index < u64::MAX,
        ensures
            final(self).seed == old(self).seed,
            final(self).index == old(self).index + 1,
            r == chacha_word(old(self).seed, old(self).index),
    {
        let w = chacha_word_at(self.seed, self.index);
        self.index = self.index + 1;
        w
    }
}

/// Roll `dice` dice of `sides` sides each and sum them. Tables downstream
/// are stated in terms of individual die sums, so the sum is composed from
/// one draw per die, never from a single combined draw.
pub fn roll(rng: &mut Substrate, dice: u32, sides: u32) -> (r: u32)
    requires
        sides >= 1,
        dice as int * sides as int <= u32::MAX as int,
        old(rng).index + dice <= u64::MAX,
    ensures
        final(rng).seed == old(rng).seed,
        final(rng).index == old(rng).index + dice,
        r as int == spec_roll(old(rng).seed, old(rng).index as int, dice as int, sides),
{
    let ghost seed = rng.seed;
    let ghost i0 = rng.index as int;
    let mut total: u32 = 0;
    let mut k: u32 = 0;
    while k < dice
        invariant
            sides >= 1,
            dice as int * sides as int <= u32::MAX as int,
            k <= dice,
            rng.seed == seed,
            rng.index == i0 + k,
            i0 + dice <= u64::MAX,
            total as int == spec_roll(seed, i0, k as int, sides),
            total as int <= k as int * sides as int,
        decreases dice - k,
    {
        let w = rng.draw();
        let die = w % sides + 1;
        proof {
            assert(die as int == spec_die(seed, i0 + k, sides));
            assert(spec_roll(seed, i0, k as int + 1, sides) == spec_roll(seed, i0, k as int, sides)
                + spec_die(seed, i0 + k, sides));
            assert(total as int + die as int <= (k as int + 1) * sides as int) by (nonlinear_arith)
                requires
                    total as int <= k as int * sides as int,
                    die as int <= sides as int,
            ;
            assert((k as int + 1) * sides as int <= dice as int * sides as int) by (nonlinear_arith)
                requires
                    k as int + 1 <= dice as int,
                    sides >= 1,
            ;
        }
        total = total + die;
        k = k + 1;
    }
    total
}

/// One six-sided die.
pub fn d6(rng: &mut Substrate) -> (r: u32)
    requires
        old(rng).index < u64::MAX,
    ensures
        final(rng).seed == old(rng).seed,
        final(rng).index == old(rng).index + 1,
        r as int == spec_die(old(rng).seed, old(rng).index as int, 6),
        1 <= r <= 6,
{
    proof {
        reveal_with_fuel(spec_roll, 3);
    }
    roll(rng, 1, 6)
}

/// The classic two-dice sum.
pub fn roll_2d6(rng: &mut Substrate) -> (r: u32)
    requires
        old(rng).index + 2 <= u64::MAX,
    ensures
        final(rng).seed == old(rng).seed,
        final(rng).index == old(rng).index + 2,
        r as int == spec_roll(old(rng).seed, old(rng).index as int, 2, 6),
        2 <= r <= 12,
{
    proof {
        reveal_with_fuel(spec_roll, 4);
    }
    roll(rng, 2, 6)
}

/// The three-dice sum.
pub fn roll_3d6(rng: &mut Substrate) -> (r: u32)
    requires
        old(rng).index + 3 <= u64::MAX,
    ensures
        final(rng).seed == old(rng).seed,
        final(rng).index == old(rng).index + 3,
        r as int == spec_roll(old(rng).seed, old(rng).index as int, 3, 6),
        3 <= r <= 18,
{
    proof {
        reveal_with_fuel(spec_roll, 5);
    }
    roll(rng, 3, 6)
}

/// One six-sided die, under the name builders use.
pub fn roll_1d6(rng: &mut Substrate) -> (r: u32)
    requires
        old(rng).index < u64::MAX,
    ensures
        final(rng).seed == old(rng).seed,
        final(rng).index == old(rng).index + 1,
        r as int == spec_die(old(rng).seed, old(rng).index as int, 6),
        1 <= r <= 6,
{
    proof {
        reveal_with_fuel(spec_roll, 3);
    }
    roll(rng, 1, 6)
}

/// One ten-sided die.
pub fn roll_1d10(rng: &mut Substrate) -> (r: u32)
    requires
        old(rng).index < u64::MAX,
    ensures
        final(rng).seed == old(rng).seed,
        final(rng).index == old(rng).index + 1,
        r as int == spec_die(old(rng).seed, old(rng).index as int, 10),
        1 <= r <= 10,
{
    proof {
        reveal_with_fuel(spec_roll, 3);
    }
    roll(rng, 1, 10)
}

/// One hundred-sided die.
pub fn roll_d100(rng: &mut Substrate) -> (r: u32)
    requires
        old(rng).index < u64::MAX,
    ensures
        final(rng).seed == old(rng).seed,
        final(rng).index == old(rng).index + 1,
        r as int == spec_die(old(rng).seed, old(rng).index as int, 100),
        1 <= r <= 100,
{
    proof {
        reveal_with_fuel(spec_roll, 3);
    }
    roll(rng, 1, 100)
}

/// A uniform index in `[0, max)`, used to pick from a name pool.
pub fn roll_range(rng: &mut Substrate, max: usize) -> (r: usize)
    requires
        1 <= max <= u32::MAX as usize,
        old(rng).index < u64::MAX,
    ensures
        final(rng).seed == old(rng).seed,
        final(rng).index == old(rng).index + 1,
        r as int == spec_range(old(rng).seed, old(rng).index as int, max),
        r < max,
{
    let w = rng.draw();
    (w % (max as u32)) as usize
}

/// A draw in `[0, 1000)`, compared against a sector's per-mille density.
pub fn roll_permille(rng: &mut Substrate) -> (r: u32)
    requires
        old(rng).index < u64::MAX,
    ensures
        final(rng).seed == old(rng).seed,
        final(rng).index == old(rng).index + 1,
        r as int == spec_permille(old(rng).seed, old(rng).index as int),
        r < 1000,
{
    let w = rng.draw();
    w % 1000
}

} // verus!
