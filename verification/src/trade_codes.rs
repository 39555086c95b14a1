use vstd::prelude::*;

use crate::world::World;
use vstd::string::StrSliceExecFns;

verus! {

/// The economic and environment classification tags a world can carry.
#[derive(Debug, Clone, Copy, PartialEq, Eq, Structural)]
pub enum TradeCode {
    Agricultural,
    Asteroid,
    Barren,
    Desert,
    FluidOceans,
    Garden,
    HighPop,
    HighTech,
    IceCapped,
    Industrial,
    LowPop,
    LowTech,
    NonAgricultural,
    NonIndustrial,
    Poor,
    Rich,
    Vacuum,
    WaterWorld,
}

/// The two-letter tag of a trade code.
pub open spec fn spec_trade_code(tc: TradeCode) -> Seq<char> {
    match tc {
        TradeCode::Agricultural => seq!['A', 'g'],
        TradeCode::Asteroid => seq!['A', 's'],
        TradeCode::Barren => seq!['B', 'a'],
        TradeCode::Desert => seq!['D', 'e'],
        TradeCode::FluidOceans => seq!['F', 'l'],
        TradeCode::Garden => seq!['G', 'a'],
        TradeCode::HighPop => seq!['H', 'i'],
        TradeCode::HighTech => seq!['H', 't'],
        TradeCode::IceCapped => seq!['I', 'c'],
        TradeCode::Industrial => seq!['I', 'n'],
        TradeCode::LowPop => seq!['L', 'o'],
        TradeCode::LowTech => seq!['L', 't'],
        TradeCode::NonAgricultural => seq!['N', 'a'],
        TradeCode::NonIndustrial => seq!['N', 'i'],
        TradeCode::Poor => seq!['P', 'o'],
        TradeCode::Rich => seq!['R', 'i'],
        TradeCode::Vacuum => seq!['V', 'a'],
        TradeCode::WaterWorld => seq!['W', 'a'],
    }
}

// Each classification is a pure predicate over the world's finished
// statistics; every predicate that matches contributes its tag, with no
// precedence or exclusion among them.

pub open spec fn is_agricultural(atm: int, hyd: int, pop: int) -> bool {
    4 <= atm <= 9 && 4 <= hyd <= 8 && 5 <= pop <= 7
}

pub open spec fn is_asteroid(size: int, atm: int, hyd: int) -> bool {
    size == 0 && atm == 0 && hyd == 0
}

pub open spec fn is_barren(pop: int, gov: int, law: int) -> bool {
    pop == 0 && gov == 0 && law == 0
}

pub open spec fn is_desert(atm: int, hyd: int) -> bool {
    2 <= atm <= 9 && hyd == 0
}

pub open spec fn is_fluid_oceans(atm: int, hyd: int) -> bool {
    atm >= 10 && hyd >= 1
}

pub open spec fn is_garden(size: int, atm: int, hyd: int) -> bool {
    5 <= size <= 9 && 4 <= atm <= 9 && 4 <= hyd <= 8
}

pub open spec fn is_high_pop(pop: int) -> bool {
    pop >= 9
}

pub open spec fn is_high_tech(tech: int) -> bool {
    tech >= 12
}

pub open spec fn is_ice_capped(atm: int, hyd: int) -> bool {
    atm <= 1 && hyd >= 1
}

pub open spec fn is_industrial(atm: int, pop: int) -> bool {
    (atm <= 2 || atm == 4 || atm == 7 || atm == 9) && pop >= 9
}

pub open spec fn is_low_pop(pop: int) -> bool {
    1 <= pop <= 3
}

pub open spec fn is_low_tech(tech: int) -> bool {
    tech <= 5
}

pub open spec fn is_non_agricultural(atm: int, hyd: int, pop: int) -> bool {
    atm <= 3 && hyd <= 3 && pop >= 6
}

pub open spec fn is_non_industrial(pop: int) -> bool {
    4 <= pop <= 6
}

pub open spec fn is_poor(atm: int, hyd: int) -> bool {
    2 <= atm <= 5 && hyd <= 3
}

pub open spec fn is_rich(atm: int, pop: int, gov: int) -> bool {
    (atm == 6 || atm == 8) && 6 <= pop <= 8 && 4 <= gov <= 9
}

pub open spec fn is_vacuum(atm: int) -> bool {
    atm == 0
}

pub open spec fn is_water_world(hyd: int) -> bool {
    hyd == 10
}

/// All trade codes, in the fixed evaluation order.
pub open spec fn all_trade_codes() -> Seq<TradeCode> {
    seq![
        TradeCode::Agricultural,
        TradeCode::Asteroid,
        TradeCode::Barren,
        TradeCode::Desert,
        TradeCode::FluidOceans,
        TradeCode::Garden,
        TradeCode::HighPop,
        TradeCode::HighTech,
        TradeCode::IceCapped,
        TradeCode::Industrial,
        TradeCode::LowPop,
        TradeCode::LowTech,
        TradeCode::NonAgricultural,
        TradeCode::NonIndustrial,
        TradeCode::Poor,
        TradeCode::Rich,
        TradeCode::Vacuum,
        TradeCode::WaterWorld,
    ]
}

/// Whether a world with the given statistics carries the code `tc`.
pub open spec fn tc_matches(
    tc: TradeCode,
    size: int,
    atm: int,
    hyd: int,
    pop: int,
    gov: int,
    law: int,
    tech: int,
) -> bool {
    match tc {
        TradeCode::Agricultural => is_agricultural(atm, hyd, pop),
        TradeCode::Asteroid => is_asteroid(size, atm, hyd),
        TradeCode::Barren => is_barren(pop, gov, law),
        TradeCode::Desert => is_desert(atm, hyd),
        TradeCode::FluidOceans => is_fluid_oceans(atm, hyd),
        TradeCode::Garden => is_garden(size, atm, hyd),
        TradeCode::HighPop => is_high_pop(pop),
        TradeCode::HighTech => is_high_tech(tech),
        TradeCode::IceCapped => is_ice_capped(atm, hyd),
        TradeCode::Industrial => is_industrial(atm, pop),
        TradeCode::LowPop => is_low_pop(pop),
        TradeCode::LowTech => is_low_tech(tech),
        TradeCode::NonAgricultural => is_non_agricultural(atm, hyd, pop),
        TradeCode::NonIndustrial => is_non_industrial(pop),
        TradeCode::Poor => is_poor(atm, hyd),
        TradeCode::Rich => is_rich(atm, pop, gov),
        TradeCode::Vacuum => is_vacuum(atm),
        TradeCode::WaterWorld => is_water_world(hyd),
    }
}

/// The tags contributed by the first `n` codes of the evaluation order.
pub open spec fn spec_tags_upto(
    codes: Seq<TradeCode>,
    n: int,
    size: int,
    atm: int,
    hyd: int,
    pop: int,
    gov: int,
    law: int,
    tech: int,
) -> Seq<Seq<char>>
    decreases n,
{
    if n <= 0 {
        seq![]
    } else {
        spec_tags_upto(codes, n - 1, size, atm, hyd, pop, gov, law, tech)
            + (if tc_matches(codes[n - 1], size, atm, hyd, pop, gov, law, tech) {
                seq![spec_trade_code(codes[n - 1])]
            } else {
                seq![]
            })
    }
}

/// The tags a world carries: of every code whose predicate matches, its
/// tag, in the fixed evaluation order.
pub open spec fn spec_trade_codes(
    size: int,
    atm: int,
    hyd: int,
    pop: int,
    gov: int,
    law: int,
    tech: int,
) -> Seq<Seq<char>> {
    spec_tags_upto(all_trade_codes(), 18, size, atm, hyd, pop, gov, law, tech)
}

/// A matching code's tag is among the tags of the first `n` codes, once
/// the code itself is among them.
proof fn lemma_tags_upto_contains(
    codes: Seq<TradeCode>,
    n: int,
    idx: int,
    size: int,
    atm: int,
    hyd: int,
    pop: int,
    gov: int,
    law: int,
    tech: int,
)
    requires
        0 <= idx < n,
        tc_matches(codes[idx], size, atm, hyd, pop, gov, law, tech),
    ensures
        spec_tags_upto(codes, n, size, atm, hyd, pop, gov, law, tech).contains(spec_trade_code(
            codes[idx])),
    decreases n,
{
    if idx == n - 1 {
        let whole = spec_tags_upto(codes, n, size, atm, hyd, pop, gov, law, tech);
        assert(whole[whole.len() - 1] == spec_trade_code(codes[idx]));
    } else {
        lemma_tags_upto_contains(codes, n - 1, idx, size, atm, hyd, pop, gov, law, tech);
        let prefix = spec_tags_upto(codes, n - 1, size, atm, hyd, pop, gov, law, tech);
        let k = choose|k: int| 0 <= k < prefix.len() && prefix[k] == spec_trade_code(codes[idx]);
        let whole = spec_tags_upto(codes, n, size, atm, hyd, pop, gov, law, tech);
        assert(whole[k] == spec_trade_code(codes[idx]));
    }
}

/// Trade-code correctness: a world whose statistics match a code's
/// predicate always carries that code's tag — an agricultural world
/// carries `Ag`, an asteroid world `As`, and so on for every code.
pub proof fn lemma_trade_code_included(
    tc: TradeCode,
    size: int,
    atm: int,
    hyd: int,
    pop: int,
    gov: int,
    law: int,
    tech: int,
)
    requires
        tc_matches(tc, size, atm, hyd, pop, gov, law, tech),
    ensures
        spec_trade_codes(size, atm, hyd, pop, gov, law, tech).contains(spec_trade_code(tc)),
{
    let all = all_trade_codes();
    let idx: int = match tc {
        TradeCode::Agricultural => 0,
        TradeCode::Asteroid => 1,
        TradeCode::Barren => 2,
        TradeCode::Desert => 3,
        TradeCode::FluidOceans => 4,
        TradeCode::Garden => 5,
        TradeCode::HighPop => 6,
        TradeCode::HighTech => 7,
        TradeCode::IceCapped => 8,
        TradeCode::Industrial => 9,
        TradeCode::LowPop => 10,
        TradeCode::LowTech => 11,
        TradeCode::NonAgricultural => 12,
        TradeCode::NonIndustrial => 13,
        TradeCode::Poor => 14,
        TradeCode::Rich => 15,
        TradeCode::Vacuum => 16,
        TradeCode::WaterWorld => 17,
    };
    assert(all[idx] == tc);
    lemma_tags_upto_contains(all, 18, idx, size, atm, hyd, pop, gov, law, tech);
}

impl TradeCode {
    /// The code's two-letter tag.
    pub fn to_code(&self) -> (r: &'static str)
        ensures
            r@ == spec_trade_code(*self),
    {
        match self {
            TradeCode::Agricultural => {
                proof { reveal_strlit("Ag"); assert("Ag"@ =~= spec_trade_code(*self)); }
                "Ag"
            },
            TradeCode::Asteroid => {
                proof { reveal_strlit("As"); assert("As"@ =~= spec_trade_code(*self)); }
                "As"
            },
            TradeCode::Barren => {
                proof { reveal_strlit("Ba"); assert("Ba"@ =~= spec_trade_code(*self)); }
                "Ba"
            },
            TradeCode::Desert => {
                proof { reveal_strlit("De"); assert("De"@ =~= spec_trade_code(*self)); }
                "De"
            },
            TradeCode::FluidOceans => {
                proof { reveal_strlit("Fl"); assert("Fl"@ =~= spec_trade_code(*self)); }
                "Fl"
            },
            TradeCode::Garden => {
                proof { reveal_strlit("Ga"); assert("Ga"@ =~= spec_trade_code(*self)); }
                "Ga"
            },
            TradeCode::HighPop => {
                proof { reveal_strlit("Hi"); assert("Hi"@ =~= spec_trade_code(*self)); }
                "Hi"
            },
            TradeCode::HighTech => {
                proof { reveal_strlit("Ht"); assert("Ht"@ =~= spec_trade_code(*self)); }
                "Ht"
            },
            TradeCode::IceCapped => {
                proof { reveal_strlit("Ic"); assert("Ic"@ =~= spec_trade_code(*self)); }
                "Ic"
            },
            TradeCode::Industrial => {
                proof { reveal_strlit("In"); assert("In"@ =~= spec_trade_code(*self)); }
                "In"
            },
            TradeCode::LowPop => {
                proof { reveal_strlit("Lo"); assert("Lo"@ =~= spec_trade_code(*self)); }
                "Lo"
            },
            TradeCode::LowTech => {
                proof { reveal_strlit("Lt"); assert("Lt"@ =~= spec_trade_code(*self)); }
                "Lt"
            },
            TradeCode::NonAgricultural => {
                proof { reveal_strlit("Na"); assert("Na"@ =~= spec_trade_code(*self)); }
                "Na"
            },
            TradeCode::NonIndustrial => {
                proof { reveal_strlit("Ni"); assert("Ni"@ =~= spec_trade_code(*self)); }
                "Ni"
            },
            TradeCode::Poor => {
                proof { reveal_strlit("Po"); assert("Po"@ =~= spec_trade_code(*self)); }
                "Po"
            },
            TradeCode::Rich => {
                proof { reveal_strlit("Ri"); assert("Ri"@ =~= spec_trade_code(*self)); }
                "Ri"
            },
            TradeCode::Vacuum => {
                proof { reveal_strlit("Va"); assert("Va"@ =~= spec_trade_code(*self)); }
                "Va"
            },
            TradeCode::WaterWorld => {
                proof { reveal_strlit("Wa"); assert("Wa"@ =~= spec_trade_code(*self)); }
                "Wa"
            },
        }
    }

    /// Whether this code's predicate matches the given statistics.
    pub fn matches_stats(
        &self,
        size: u8,
        atm: u8,
        hyd: u8,
        pop: u8,
        gov: u8,
        law: u8,
        tech: u8,
    ) -> (r: bool)
        ensures
            r == tc_matches(*self, size as int, atm as int, hyd as int, pop as int, gov as int,
                law as int, tech as int),
    {
        match self {
            TradeCode::Agricultural => 4 <= atm && atm <= 9 && 4 <= hyd && hyd <= 8 && 5 <= pop
                && pop <= 7,
            TradeCode::Asteroid => size == 0 && atm == 0 && hyd == 0,
            TradeCode::Barren => pop == 0 && gov == 0 && law == 0,
            TradeCode::Desert => 2 <= atm && atm <= 9 && hyd == 0,
            TradeCode::FluidOceans => atm >= 10 && hyd >= 1,
            TradeCode::Garden => 5 <= size && size <= 9 && 4 <= atm && atm <= 9 && 4 <= hyd
                && hyd <= 8,
            TradeCode::HighPop => pop >= 9,
            TradeCode::HighTech => tech >= 12,
            TradeCode::IceCapped => atm <= 1 && hyd >= 1,
            TradeCode::Industrial => (atm <= 2 || atm == 4 || atm == 7 || atm == 9) && pop >= 9,
            TradeCode::LowPop => pop >= 1 && pop <= 3,
            TradeCode::LowTech => tech <= 5,
            TradeCode::NonAgricultural => atm <= 3 && hyd <= 3 && pop >= 6,
            TradeCode::NonIndustrial => pop >= 4 && pop <= 6,
            TradeCode::Poor => 2 <= atm && atm <= 5 && hyd <= 3,
            TradeCode::Rich => (atm == 6 || atm == 8) && 6 <= pop && pop <= 8 && 4 <= gov
                && gov <= 9,
            TradeCode::Vacuum => atm == 0,
            TradeCode::WaterWorld => hyd == 10,
        }
    }

    /// Classify a world: every matching predicate contributes its tag. The
    /// result is a pure function of the world's statistics, recomputed from
    /// them and never hand-set.
    pub fn calculate(world: &World) -> (r: Vec<String>)
        ensures
            r.deep_view() == spec_trade_codes(world.size as int, world.atmosphere as int,
                world.hydrographics as int, world.population as int, world.government as int,
                world.law_level as int, world.tech_level as int),
    {
        let size = world.size;
        let atm = world.atmosphere;
        let hyd = world.hydrographics;
        let pop = world.population;
        let gov = world.government;
        let law = world.law_level;
        let tech = world.tech_level;

        let all: Vec<TradeCode> = vec![
            TradeCode::Agricultural,
            TradeCode::Asteroid,
            TradeCode::Barren,
            TradeCode::Desert,
            TradeCode::FluidOceans,
            TradeCode::Garden,
            TradeCode::HighPop,
            TradeCode::HighTech,
            TradeCode::IceCapped,
            TradeCode::Industrial,
            TradeCode::LowPop,
            TradeCode::LowTech,
            TradeCode::NonAgricultural,
            TradeCode::NonIndustrial,
            TradeCode::Poor,
            TradeCode::Rich,
            TradeCode::Vacuum,
            TradeCode::WaterWorld,
        ];
        proof {
            assert(all@ =~= all_trade_codes());
        }

        let mut codes: Vec<String> = Vec::new();
        let mut i: usize = 0;
        while i < all.len()
            invariant
                all@ == all_trade_codes(),
                i <= 18,
                codes.deep_view() == spec_tags_upto(all@, i as int, size as int, atm as int,
                    hyd as int, pop as int, gov as int, law as int, tech as int),
            decreases 18 - i,
        {
            let tc = all[i];
            if tc.matches_stats(size, atm, hyd, pop, gov, law, tech) {
                codes.push(tc.to_code().to_owned());
            }
            proof {
                assert(codes.deep_view() =~= spec_tags_upto(all@, i as int + 1, size as int,
                    atm as int, hyd as int, pop as int, gov as int, law as int, tech as int));
            }
            i = i + 1;
        }
        codes
    }
}

} // verus!
