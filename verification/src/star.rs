use vstd::prelude::*;

use crate::orbit::OrbitContent;
use vstd::arithmetic::power2::{lemma2_to64, lemma2_to64_rest, lemma_pow2_strictly_increases, pow2};
use vstd::bits::lemma_u64_shl_is_mul;
use vstd::string::{StrSliceExecFns, StringExecFns};

verus! {

/// A star's spectral type; `D` stands for a brown dwarf.
#[derive(Debug, Clone, Copy, PartialEq, Eq, Structural)]
pub enum StarType {
    O,
    B,
    A,
    F,
    G,
    K,
    M,
    D,
}

/// A star's luminosity class, from bright supergiant down to white dwarf.
#[derive(Debug, Clone, Copy, PartialEq, Eq, Structural)]
pub enum StarSize {
    Ia,
    Ib,
    II,
    III,
    IV,
    V,
    VI,
    D,
}

/// The letter of a spectral type.
pub open spec fn spec_star_type_char(t: StarType) -> char {
    match t {
        StarType::O => 'O',
        StarType::B => 'B',
        StarType::A => 'A',
        StarType::F => 'F',
        StarType::G => 'G',
        StarType::K => 'K',
        StarType::M => 'M',
        StarType::D => 'D',
    }
}

/// The letter of a spectral type, as a one-character string.
pub fn star_type_str(t: StarType) -> (r: &'static str)
    ensures
        r@.len() == 1,
        r@[0] == spec_star_type_char(t),
{
    match t {
        StarType::O => { proof { reveal_strlit("O"); } "O" },
        StarType::B => { proof { reveal_strlit("B"); } "B" },
        StarType::A => { proof { reveal_strlit("A"); } "A" },
        StarType::F => { proof { reveal_strlit("F"); } "F" },
        StarType::G => { proof { reveal_strlit("G"); } "G" },
        StarType::K => { proof { reveal_strlit("K"); } "K" },
        StarType::M => { proof { reveal_strlit("M"); } "M" },
        StarType::D => { proof { reveal_strlit("D"); } "D" },
    }
}

/// The code of a luminosity class.
pub open spec fn spec_star_size_code(s: StarSize) -> Seq<char> {
    match s {
        StarSize::Ia => seq!['I', 'a'],
        StarSize::Ib => seq!['I', 'b'],
        StarSize::II => seq!['I', 'I'],
        StarSize::III => seq!['I', 'I', 'I'],
        StarSize::IV => seq!['I', 'V'],
        StarSize::V => seq!['V'],
        StarSize::VI => seq!['V', 'I'],
        StarSize::D => seq!['D'],
    }
}

/// The code of a luminosity class, as a string slice.
pub fn star_size_str(s: StarSize) -> (r: &'static str)
    ensures
        r@ == spec_star_size_code(s),
{
    match s {
        StarSize::Ia => {
            proof { reveal_strlit("Ia"); assert("Ia"@ =~= spec_star_size_code(s)); }
            "Ia"
        },
        StarSize::Ib => {
            proof { reveal_strlit("Ib"); assert("Ib"@ =~= spec_star_size_code(s)); }
            "Ib"
        },
        StarSize::II => {
            proof { reveal_strlit("II"); assert("II"@ =~= spec_star_size_code(s)); }
            "II"
        },
        StarSize::III => {
            proof { reveal_strlit("III"); assert("III"@ =~= spec_star_size_code(s)); }
            "III"
        },
        StarSize::IV => {
            proof { reveal_strlit("IV"); assert("IV"@ =~= spec_star_size_code(s)); }
            "IV"
        },
        StarSize::V => {
            proof { reveal_strlit("V"); assert("V"@ =~= spec_star_size_code(s)); }
            "V"
        },
        StarSize::VI => {
            proof { reveal_strlit("VI"); assert("VI"@ =~= spec_star_size_code(s)); }
            "VI"
        },
        StarSize::D => {
            proof { reveal_strlit("D"); assert("D"@ =~= spec_star_size_code(s)); }
            "D"
        },
    }
}

/// A star and its populated orbit slots.
///
/// Quantities are fixed-point integers: `mass` in hundredths of a solar
/// mass, `luminosity` in millionths of the solar luminosity, `temperature`
/// in kelvin, `bode_constant` and every orbital distance in milli-AU.
#[derive(Debug, PartialEq)]
pub struct Star {
    pub star_type: StarType,
    pub star_size: StarSize,
    pub spectral: String,
    pub is_primary: bool,
    pub orbit_number: u8,
    pub companions: Vec<Star>,
    pub orbits: Vec<OrbitContent>,
    pub mass: u64,
    pub luminosity: u64,
    pub temperature: u32,
    pub bode_constant: u64,
}

/// The machine bounds a star's rolled quantities stay within.
pub open spec fn star_quantities_bounded(s: Star) -> bool {
    &&& 1 <= s.mass <= 1_000_000
    &&& 1 <= s.luminosity <= 10_000_000_000_000_000
    &&& 250 <= s.bode_constant <= 1000
}

/// The distance of orbit slot `n` under Bode spacing constant `bode`:
/// the constant doubled `n` times.
pub open spec fn spec_orbit_to_au(bode: int, n: int) -> int
    recommends
        n >= 0,
{
    bode * pow2(n as nat)
}

/// Bode spacing is strictly increasing in the slot number.
pub proof fn lemma_orbit_au_increases(bode: int, n1: int, n2: int)
    requires
        bode >= 1,
        0 <= n1 < n2,
    ensures
        spec_orbit_to_au(bode, n1) < spec_orbit_to_au(bode, n2),
{
    lemma_pow2_strictly_increases(n1 as nat, n2 as nat);
    assert(bode * pow2(n1 as nat) < bode * pow2(n2 as nat)) by (nonlinear_arith)
        requires
            bode >= 1,
            pow2(n1 as nat) < pow2(n2 as nat),
    ;
}

/// The inner limit in milli-AU: a tenth of an AU per solar mass, with the
/// mass given in hundredths of a solar mass.
pub open spec fn spec_inner_limit(mass: int) -> int {
    mass
}

/// The outer limit in milli-AU: forty AU per solar mass.
pub open spec fn spec_outer_limit(mass: int) -> int {
    400 * mass
}

/// The largest integer whose square does not exceed `n`.
pub open spec fn spec_isqrt(n: int) -> int
    recommends
        n >= 0,
    decreases n,
{
    if n < 1 {
        0
    } else {
        let r = spec_isqrt(n - 1);
        if (r + 1) * (r + 1) <= n {
            r + 1
        } else {
            r
        }
    }
}

/// The defining bounds of the integer square root.
pub proof fn lemma_isqrt_bounds(n: int)
    requires
        n >= 0,
    ensures
        spec_isqrt(n) * spec_isqrt(n) <= n,
        (spec_isqrt(n) + 1) * (spec_isqrt(n) + 1) > n,
        spec_isqrt(n) >= 0,
    decreases n,
{
    if n >= 1 {
        lemma_isqrt_bounds(n - 1);
        let r = spec_isqrt(n - 1);
        if (r + 1) * (r + 1) <= n {
            assert((r + 2) * (r + 2) > n) by (nonlinear_arith)
                requires
                    (r + 1) * (r + 1) > n - 1,
                    r >= 0,
            ;
        }
    }
}

/// Any value meeting the bounds is the integer square root.
pub proof fn lemma_isqrt_unique(n: int, r: int)
    requires
        n >= 0,
        r >= 0,
        r * r <= n,
        (r + 1) * (r + 1) > n,
    ensures
        r == spec_isqrt(n),
{
    lemma_isqrt_bounds(n);
    let s = spec_isqrt(n);
    if r < s {
        assert((r + 1) * (r + 1) <= s * s) by (nonlinear_arith)
            requires
                0 <= r,
                r + 1 <= s,
        ;
    }
    if r > s {
        assert((s + 1) * (s + 1) <= r * r) by (nonlinear_arith)
            requires
                0 <= s,
                s + 1 <= r,
        ;
    }
}

/// The biozone's inner edge in milli-AU: 0.95 times the square root of
/// the luminosity in solar units, with the luminosity in millionths.
pub open spec fn spec_bio_inner(lum: int) -> int {
    950 * spec_isqrt(lum) / 1000
}

/// The biozone's outer edge in milli-AU: 1.35 times the square root of
/// the luminosity in solar units.
pub open spec fn spec_bio_outer(lum: int) -> int {
    1350 * spec_isqrt(lum) / 1000
}

/// The integer square root, by bisection.
pub fn isqrt(n: u64) -> (r: u64)
    requires
        n <= 10_000_000_000_000_000,
    ensures
        r as int == spec_isqrt(n as int),
        r * r <= n,
{
    let mut lo: u64 = 0;
    let mut hi: u64 = 100_000_000;
    proof {
        assert(100_000_001u64 * 100_000_001u64 > 10_000_000_000_000_000);
    }
    while lo < hi
        invariant
            lo <= hi <= 100_000_000,
            lo as int * lo as int <= n as int,
            (hi as int + 1) * (hi as int + 1) > n as int,
        decreases hi - lo,
    {
        let mid = lo + (hi - lo + 1) / 2;
        proof {
            assert(mid as int * mid as int <= 10_000_000_000_000_000) by (nonlinear_arith)
                requires
                    mid as int <= 100_000_000,
            ;
        }
        if mid * mid <= n {
            lo = mid;
        } else {
            hi = mid - 1;
        }
    }
    proof {
        lemma_isqrt_unique(n as int, lo as int);
    }
    lo
}

impl Star {
    /// A fresh star of the given type and class, its quantities at the
    /// sun-like defaults and its orbits not yet populated.
    pub fn new(star_type: StarType, star_size: StarSize, is_primary: bool) -> (r: Star)
        ensures
            r.star_type == star_type,
            r.star_size == star_size,
            r.spectral@ =~= seq![spec_star_type_char(star_type), '5'],
            r.is_primary == is_primary,
            r.orbit_number == 0,
            r.companions@.len() == 0,
            r.orbits@.len() == 0,
            r.mass == 100,
            r.luminosity == 1_000_000,
            r.temperature == 5800,
            r.bode_constant == 300,
    {
        let mut spectral = String::new();
        spectral.append(star_type_str(star_type));
        proof {
            reveal_strlit("5");
        }
        spectral.append("5");
        Star {
            star_type,
            star_size,
            spectral,
            is_primary,
            orbit_number: 0,
            companions: Vec::new(),
            orbits: Vec::new(),
            mass: 100,
            luminosity: 1_000_000,
            temperature: 5800,
            bode_constant: 300,
        }
    }

    /// The distance of orbit slot `orbit`, in milli-AU.
    pub fn orbit_to_au(&self, orbit: u8) -> (r: u64)
        requires
            self.bode_constant <= 1000,
            orbit <= 53,
        ensures
            r as int == spec_orbit_to_au(self.bode_constant as int, orbit as int),
    {
        proof {
            lemma2_to64();
            lemma2_to64_rest();
            lemma_pow2_strictly_increases(orbit as nat, 54nat);
            assert(self.bode_constant as int * pow2(orbit as nat) <= 1000 * pow2(54))
                by (nonlinear_arith)
                requires
                    self.bode_constant <= 1000,
                    pow2(orbit as nat) <= pow2(54),
            ;
            lemma_u64_shl_is_mul(self.bode_constant, orbit as u64);
        }
        self.bode_constant << (orbit as u64)
    }

    /// The slot whose Bode distance is nearest to `au` in the doubling
    /// progression: the unique `n` with `au / bode` between the half-power
    /// points around `2^n`, and zero at or below the lowest slot.
    pub fn au_to_orbit(&self, au: u64) -> (r: u8)
        requires
            1 <= self.bode_constant <= 1000,
            au <= 100_000_000,
        ensures
            au == 0 ==> r == 0,
            au > 0 ==> 2 * au * au < self.bode_constant * self.bode_constant * pow2(
                2 * r as nat + 2),
            au > 0 && r > 0 ==> 2 * au * au >= self.bode_constant * self.bode_constant * pow2(
                2 * r as nat),
    {
        if au == 0 {
            return 0;
        }
        let bode = self.bode_constant;
        proof {
            assert(2 * au as int * au as int <= 20_000_000_000_000_000) by (nonlinear_arith)
                requires
                    au <= 100_000_000,
            ;
            assert(self.bode_constant as int * self.bode_constant as int <= 1_000_000)
                by (nonlinear_arith)
                requires
                    self.bode_constant <= 1000,
            ;
        }
        let au2 = 2 * au * au;
        let mut t: u64 = bode * bode * 4;
        let mut n: u8 = 0;
        proof {
            lemma2_to64();
            assert(t == bode * bode * pow2(2));
        }
        while t <= au2
            invariant
                1 <= bode <= 1000,
                au2 <= 20_000_000_000_000_000,
                t as int == bode as int * bode as int * pow2(2 * n as nat + 2),
                n > 0 ==> au2 as int >= bode as int * bode as int * pow2(2 * n as nat),
                n <= 30,
            decreases 30 - n,
        {
            proof {
                assert(pow2(2 * n as nat + 4) == 4 * pow2(2 * n as nat + 2)) by {
                    vstd::arithmetic::power2::lemma_pow2_adds(2 * n as nat + 2, 2);
                    lemma2_to64();
                }
                assert(t as int * 4 == bode as int * bode as int * pow2(2 * n as nat + 4))
                    by (nonlinear_arith)
                    requires
                        t as int == bode as int * bode as int * pow2(2 * n as nat + 2),
                        pow2(2 * n as nat + 4) == 4 * pow2(2 * n as nat + 2),
                ;
                assert(n < 30) by {
                    if n >= 30 {
                        lemma2_to64();
                        vstd::arithmetic::power2::lemma_pow2_strictly_increases(56, 2 * n as nat
                            + 2);
                        assert(bode as int * bode as int * pow2(2 * n as nat + 2) >= pow2(2
                            * n as nat + 2)) by (nonlinear_arith)
                            requires
                                bode >= 1,
                                pow2(2 * n as nat + 2) >= 0,
                        ;
                    }
                }
            }
            t = t * 4;
            n = n + 1;
        }
        n
    }

    /// The inner limit below which no orbit holds content, in milli-AU
    /// (a tenth of an AU per solar mass).
    pub fn inner_limit(&self) -> (r: u64)
        ensures
            r as int == spec_inner_limit(self.mass as int),
    {
        self.mass
    }

    /// The outer limit past which slot enumeration stops, in milli-AU
    /// (forty AU per solar mass).
    pub fn outer_limit(&self) -> (r: u64)
        requires
            self.mass <= 1_000_000,
        ensures
            r as int == spec_outer_limit(self.mass as int),
    {
        400 * self.mass
    }

    /// The habitable band around the star, in milli-AU: 0.95 to 1.35 times
    /// the square root of the luminosity in solar units.
    pub fn biozone(&self) -> (r: (u64, u64))
        requires
            self.luminosity <= 10_000_000_000_000_000,
        ensures
            r.0 as int == spec_bio_inner(self.luminosity as int),
            r.1 as int == spec_bio_outer(self.luminosity as int),
            r.0 <= r.1,
    {
        let s = isqrt(self.luminosity);
        proof {
            lemma_isqrt_bounds(self.luminosity as int);
            assert(spec_isqrt(self.luminosity as int) <= 100_000_000) by {
                lemma_isqrt_unique(self.luminosity as int, spec_isqrt(self.luminosity as int));
                if spec_isqrt(self.luminosity as int) > 100_000_000 {
                    assert(spec_isqrt(self.luminosity as int) * spec_isqrt(self.luminosity as int)
                        > 10_000_000_000_000_000) by (nonlinear_arith)
                        requires
                            spec_isqrt(self.luminosity as int) > 100_000_000,
                    ;
                }
            }
        }
        let inner = 950 * s / 1000;
        let outer = 1350 * s / 1000;
        (inner, outer)
    }

    /// The star's designation: spectral class then luminosity class.
    pub fn to_string(&self) -> (r: String)
        ensures
            r@ == self.spectral@ + spec_star_size_code(self.star_size),
    {
        let mut r = self.spectral.clone();
        r.append(star_size_str(self.star_size));
        proof {
            assert(r@ =~= self.spectral@ + spec_star_size_code(self.star_size));
        }
        r
    }
}

} // verus!
