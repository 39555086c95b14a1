use vstd::prelude::*;

use crate::orbit_builder::{slot_built, spec_emitted, spec_num_orbits, spec_slot_state, spec_zone,
    OrbitBuilder};
use crate::rng::{spec_die, spec_roll, Substrate, roll_1d10, roll_2d6};
use crate::star::{spec_orbit_to_au, spec_star_type_char, star_quantities_bounded, star_type_str,
    Star, StarSize, StarType};
use crate::world::{hex_char, hex_str};
use vstd::string::StringExecFns;

verus! {

/// The spectral type of a two-dice roll: weighted toward the common M, K
/// and G types.
pub open spec fn spec_star_type_of(roll: int) -> StarType {
    if roll == 2 {
        StarType::A
    } else if roll <= 4 {
        StarType::M
    } else if roll <= 6 {
        StarType::K
    } else if roll <= 8 {
        StarType::G
    } else if roll == 9 {
        StarType::F
    } else {
        StarType::M
    }
}

/// The luminosity class of a two-dice roll.
pub open spec fn spec_star_size_of(roll: int) -> StarSize {
    if roll == 2 {
        StarSize::II
    } else if roll == 3 {
        StarSize::III
    } else if roll == 4 {
        StarSize::IV
    } else if roll <= 10 {
        StarSize::V
    } else if roll == 11 {
        StarSize::VI
    } else {
        StarSize::D
    }
}

/// The base mass of a spectral type, in hundredths of a solar mass.
pub open spec fn spec_base_mass(t: StarType) -> int {
    match t {
        StarType::O => 6000,
        StarType::B => 1000,
        StarType::A => 200,
        StarType::F => 130,
        StarType::G => 100,
        StarType::K => 70,
        StarType::M => 30,
        StarType::D => 80,
    }
}

/// The base luminosity of a spectral type, in millionths of the solar
/// luminosity.
pub open spec fn spec_base_lum(t: StarType) -> int {
    match t {
        StarType::O => 500_000_000_000,
        StarType::B => 10_000_000_000,
        StarType::A => 20_000_000,
        StarType::F => 2_500_000,
        StarType::G => 1_000_000,
        StarType::K => 400_000,
        StarType::M => 40_000,
        StarType::D => 1_000,
    }
}

/// The effective temperature of a spectral type, in kelvin.
pub open spec fn spec_star_temp(t: StarType) -> int {
    match t {
        StarType::O => 40000,
        StarType::B => 20000,
        StarType::A => 8500,
        StarType::F => 6500,
        StarType::G => 5800,
        StarType::K => 4500,
        StarType::M => 3000,
        StarType::D => 10000,
    }
}

/// The star's mass after the luminosity-class multiplier: supergiants
/// ten-fold, down the classes to subdwarfs at four fifths, and white
/// dwarfs clamped to 0.8 solar masses outright.
pub open spec fn spec_star_mass(t: StarType, sz: StarSize) -> int {
    let base = spec_base_mass(t);
    match sz {
        StarSize::Ia | StarSize::Ib => base * 10,
        StarSize::II => base * 5,
        StarSize::III => base * 2,
        StarSize::IV => base * 3 / 2,
        StarSize::V => base,
        StarSize::VI => base * 4 / 5,
        StarSize::D => 80,
    }
}

/// The star's luminosity after the luminosity-class multiplier.
pub open spec fn spec_star_lum(t: StarType, sz: StarSize) -> int {
    let base = spec_base_lum(t);
    match sz {
        StarSize::Ia | StarSize::Ib => base * 10000,
        StarSize::II => base * 1000,
        StarSize::III => base * 100,
        StarSize::IV => base * 10,
        StarSize::V => base,
        StarSize::VI => base / 10,
        StarSize::D => base / 1000,
    }
}

/// Every type and class lands inside the machine bounds the orbit walk
/// relies on.
pub proof fn lemma_star_quantities(t: StarType, sz: StarSize)
    ensures
        24 <= spec_star_mass(t, sz) <= 60000,
        1 <= spec_star_lum(t, sz) <= 5_000_000_000_000_000,
{
}

/// The Bode spacing constant rolled at position `i`, in milli-AU.
pub open spec fn spec_bode_of(s: u64, i: int) -> int {
    spec_roll(s, i, 2, 6) * 50 + 250
}

/// A primary star as rolled from seed `s` at position `i`: type, class,
/// subtype digit, the fixed per-type quantities scaled by class, the Bode
/// constant, and the orbit walk starting seven draws in.
pub open spec fn star_built(st: Star, s: u64, i: int) -> bool {
    let t = spec_star_type_of(spec_roll(s, i, 2, 6));
    let sz = spec_star_size_of(spec_roll(s, i + 2, 2, 6));
    &&& st.star_type == t
    &&& st.star_size == sz
    &&& st.spectral@ == seq![spec_star_type_char(t), hex_char(spec_die(s, i + 4, 10) - 1)]
    &&& st.is_primary == true
    &&& st.orbit_number == 0
    &&& st.companions@.len() == 0
    &&& st.mass as int == spec_star_mass(t, sz)
    &&& st.luminosity as int == spec_star_lum(t, sz)
    &&& st.temperature as int == spec_star_temp(t)
    &&& st.bode_constant as int == spec_bode_of(s, i + 5)
    &&& star_orbits_built(st, s, i + 7)
}

/// The star's orbit sequence is exactly the slot walk rolled from
/// position `j`.
pub open spec fn star_orbits_built(st: Star, s: u64, j: int) -> bool {
    let bode = st.bode_constant as int;
    let mass = st.mass as int;
    let lum = st.luminosity as int;
    let num = spec_num_orbits(s, j, st.star_size, st.star_type);
    let cnt = spec_emitted(bode, mass, num, 0);
    &&& st.orbits@.len() == cnt
    &&& forall|k: int| 0 <= k < cnt ==> slot_built(#[trigger] st.orbits@[k], s, spec_slot_state(
        s, j + 2, bode, mass, lum, k).0, k, spec_orbit_to_au(bode, k), spec_zone(bode, mass,
        lum, k), spec_slot_state(s, j + 2, bode, mass, lum, k).1)
}

/// The substrate position after a whole star rolled at `i`.
pub open spec fn spec_star_end(s: u64, i: int) -> int {
    let t = spec_star_type_of(spec_roll(s, i, 2, 6));
    let sz = spec_star_size_of(spec_roll(s, i + 2, 2, 6));
    let bode = spec_bode_of(s, i + 5);
    let mass = spec_star_mass(t, sz);
    let lum = spec_star_lum(t, sz);
    let num = spec_num_orbits(s, i + 7, sz, t);
    let cnt = spec_emitted(bode, mass, num, 0);
    spec_slot_state(s, i + 9, bode, mass, lum, cnt).0
}

/// Whether the star rolled at `i` seats a habitable world somewhere in
/// its orbit walk.
pub open spec fn spec_star_has_world(s: u64, i: int) -> bool {
    let t = spec_star_type_of(spec_roll(s, i, 2, 6));
    let sz = spec_star_size_of(spec_roll(s, i + 2, 2, 6));
    let bode = spec_bode_of(s, i + 5);
    let mass = spec_star_mass(t, sz);
    let lum = spec_star_lum(t, sz);
    let num = spec_num_orbits(s, i + 7, sz, t);
    let cnt = spec_emitted(bode, mass, num, 0);
    spec_slot_state(s, i + 9, bode, mass, lum, cnt).1
}

/// A star takes at most 850 draws, orbit walk included.
pub proof fn lemma_star_end_bound(s: u64, i: int)
    ensures
        i < spec_star_end(s, i) <= i + 850,
{
    let t = spec_star_type_of(spec_roll(s, i, 2, 6));
    let sz = spec_star_size_of(spec_roll(s, i + 2, 2, 6));
    let bode = spec_bode_of(s, i + 5);
    let mass = spec_star_mass(t, sz);
    let lum = spec_star_lum(t, sz);
    let num = spec_num_orbits(s, i + 7, sz, t);
    let cnt = spec_emitted(bode, mass, num, 0);
    crate::rng::lemma_roll_bounds(s, i + 7, 2, 6);
    assert(num <= 20);
    crate::orbit_builder::lemma_emitted_bounds(bode, mass, num, 0);
    crate::orbit_builder::lemma_state_bound(s, i + 9, bode, mass, lum, cnt);
    assert(40 * cnt <= 800) by (nonlinear_arith)
        requires
            0 <= cnt <= 20,
    ;
}

/// Builds a primary star and hands it to the orbit walk.
pub struct StarBuilder;

impl StarBuilder {
    /// Roll the spectral type on two dice.
    pub fn determine_star_type(rng: &mut Substrate) -> (r: StarType)
        requires
            old(rng).index + 2 <= u64::MAX,
        ensures
            final(rng).seed == old(rng).seed,
            final(rng).index == old(rng).index + 2,
            r == spec_star_type_of(spec_roll(old(rng).seed, old(rng).index as int, 2, 6)),
    {
        let roll = roll_2d6(rng);
        if roll == 2 {
            StarType::A
        } else if roll <= 4 {
            StarType::M
        } else if roll <= 6 {
            StarType::K
        } else if roll <= 8 {
            StarType::G
        } else if roll == 9 {
            StarType::F
        } else {
            StarType::M
        }
    }

    /// Roll the luminosity class on two dice; the spectral type does not
    /// weigh in.
    pub fn determine_star_size(_star_type: &StarType, rng: &mut Substrate) -> (r: StarSize)
        requires
            old(rng).index + 2 <= u64::MAX,
        ensures
            final(rng).seed == old(rng).seed,
            final(rng).index == old(rng).index + 2,
            r == spec_star_size_of(spec_roll(old(rng).seed, old(rng).index as int, 2, 6)),
    {
        let roll = roll_2d6(rng);
        if roll == 2 {
            StarSize::II
        } else if roll == 3 {
            StarSize::III
        } else if roll == 4 {
            StarSize::IV
        } else if roll <= 10 {
            StarSize::V
        } else if roll == 11 {
            StarSize::VI
        } else {
            StarSize::D
        }
    }

    /// Assign mass, luminosity and temperature from the per-type base
    /// table, scaled by the per-class multipliers.
    fn set_stellar_characteristics(star: &mut Star)
        ensures
            final(star).mass as int == spec_star_mass(old(star).star_type, old(star).star_size),
            final(star).luminosity as int == spec_star_lum(old(star).star_type,
                old(star).star_size),
            final(star).temperature as int == spec_star_temp(old(star).star_type),
            *final(star) == (Star {
                mass: final(star).mass,
                luminosity: final(star).luminosity,
                temperature: final(star).temperature,
                ..*old(star)
            }),
    {
        match star.star_type {
            StarType::O => {
                star.mass = 6000;
                star.luminosity = 500_000_000_000;
                star.temperature = 40000;
            },
            StarType::B => {
                star.mass = 1000;
                star.luminosity = 10_000_000_000;
                star.temperature = 20000;
            },
            StarType::A => {
                star.mass = 200;
                star.luminosity = 20_000_000;
                star.temperature = 8500;
            },
            StarType::F => {
                star.mass = 130;
                star.luminosity = 2_500_000;
                star.temperature = 6500;
            },
            StarType::G => {
                star.mass = 100;
                star.luminosity = 1_000_000;
                star.temperature = 5800;
            },
            StarType::K => {
                star.mass = 70;
                star.luminosity = 400_000;
                star.temperature = 4500;
            },
            StarType::M => {
                star.mass = 30;
                star.luminosity = 40_000;
                star.temperature = 3000;
            },
            StarType::D => {
                star.mass = 80;
                star.luminosity = 1_000;
                star.temperature = 10000;
            },
        }
        match star.star_size {
            StarSize::Ia | StarSize::Ib => {
                star.luminosity = star.luminosity * 10000;
                star.mass = star.mass * 10;
            },
            StarSize::II => {
                star.luminosity = star.luminosity * 1000;
                star.mass = star.mass * 5;
            },
            StarSize::III => {
                star.luminosity = star.luminosity * 100;
                star.mass = star.mass * 2;
            },
            StarSize::IV => {
                star.luminosity = star.luminosity * 10;
                star.mass = star.mass * 3 / 2;
            },
            StarSize::V => {},
            StarSize::VI => {
                star.luminosity = star.luminosity / 10;
                star.mass = star.mass * 4 / 5;
            },
            StarSize::D => {
                star.luminosity = star.luminosity / 1000;
                star.mass = 80;
            },
        }
    }

    /// Roll a star: type, class, subtype digit, then the fixed quantities.
    fn generate_star(is_primary: bool, rng: &mut Substrate) -> (r: Star)
        requires
            old(rng).index + 5 <= u64::MAX,
        ensures
            final(rng).seed == old(rng).seed,
            final(rng).index == old(rng).index + 5,
            ({
                let s = old(rng).seed;
                let i = old(rng).index as int;
                let t = spec_star_type_of(spec_roll(s, i, 2, 6));
                let sz = spec_star_size_of(spec_roll(s, i + 2, 2, 6));
                &&& r.star_type == t
                &&& r.star_size == sz
                &&& r.spectral@ == seq![spec_star_type_char(t), hex_char(spec_die(s, i + 4, 10)
                    - 1)]
                &&& r.is_primary == is_primary
                &&& r.orbit_number == 0
                &&& r.companions@.len() == 0
                &&& r.orbits@.len() == 0
                &&& r.mass as int == spec_star_mass(t, sz)
                &&& r.luminosity as int == spec_star_lum(t, sz)
                &&& r.temperature as int == spec_star_temp(t)
                &&& r.bode_constant == 300
            }),
    {
        let star_type = Self::determine_star_type(rng);
        let star_size = Self::determine_star_size(&star_type, rng);
        let spectral_subtype = roll_1d10(rng) - 1;

        let mut star = Star::new(star_type, star_size, is_primary);
        let mut spectral = String::new();
        spectral.append(star_type_str(star_type));
        spectral.append(hex_str(spectral_subtype as u8));
        star.spectral = spectral;
        proof {
            assert(star.spectral@ =~= seq![spec_star_type_char(star_type), hex_char(
                spectral_subtype as int)]);
        }

        Self::set_stellar_characteristics(&mut star);
        star
    }

    /// Roll a primary star, its Bode spacing constant, and its orbits.
    pub fn build_primary(rng: &mut Substrate) -> (r: Star)
        requires
            old(rng).index + 1010 <= u64::MAX,
        ensures
            final(rng).seed == old(rng).seed,
            star_built(r, old(rng).seed, old(rng).index as int),
            final(rng).index as int == spec_star_end(old(rng).seed, old(rng).index as int),
    {
        let ghost s = rng.seed;
        let ghost i = rng.index as int;
        let mut star = Self::generate_star(true, rng);

        let bode_roll = roll_2d6(rng);
        star.bode_constant = bode_roll as u64 * 50 + 250;

        proof {
            lemma_star_quantities(star.star_type, star.star_size);
            assert(star_quantities_bounded(star));
        }
        OrbitBuilder::populate_orbits(&mut star, rng);
        star
    }
}

} // verus!
